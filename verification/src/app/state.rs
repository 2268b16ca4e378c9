//! The dashboard state: the session tree, which sessions are expanded, the filter,
//! and which row is selected.
use vstd::prelude::*;

use crate::text::{
    chars_of, contains_chars, has_substring, is_blank, lowercase_of, pop_char, push_char,
    to_lowercase, trim, trimmed_string,
};
use crate::tmux::session::{Session, Window};

verus! {

/// The region of the screen that has the keyboard focus.
#[derive(Debug, Clone, Copy, PartialEq, Eq, Structural)]
pub enum FocusRegion {
    Tree,
    Details,
    Help,
    Modal,
}

impl Default for FocusRegion {
    fn default() -> (r: Self)
        ensures
            r == FocusRegion::Tree,
    {
        FocusRegion::Tree
    }
}

/// What is selected in the tree, by name, so that it survives a refresh.
#[derive(Debug, Clone, PartialEq, Eq)]
pub enum TreeSelection {
    Session { name: String },
    Window { session_name: String, window_index: String },
}

/// The message shown in the status line.
#[derive(Debug, Clone, PartialEq, Eq)]
pub struct StatusLine {
    pub message: String,
    pub is_error: bool,
}

/// A dialog over the dashboard.
#[allow(inconsistent_fields)]
#[derive(Debug, Clone, PartialEq, Eq)]
pub enum Modal {
    Input { title: String, value: String, action: InputAction },
    Confirm { title: String, prompt: String, action: ConfirmAction },
}

/// What an input dialog does with the text entered.
#[derive(Debug, Clone, PartialEq, Eq)]
pub enum InputAction {
    CreateSession,
    CreateWindow { session_name: String },
    RenameSession { session_name: String },
    RenameWindow { session_name: String, window_index: String },
}

/// What a confirmation dialog does when confirmed.
#[derive(Debug, Clone, PartialEq, Eq)]
pub enum ConfirmAction {
    CloseSession { session_name: String },
    CloseWindow { session_name: String, window_index: String },
    OverwriteSessionExport,
    RunSessionRestore,
}

/// The state of the dashboard.
///
/// The set of expanded sessions is kept as a list of names; only membership counts.
#[derive(Debug)]
pub struct State {
    pub focus: FocusRegion,
    pub sessions: Vec<Session>,
    pub selected_session: Option<usize>,
    pub selected_window: Option<usize>,
    pub selection: Option<TreeSelection>,
    pub expanded_sessions: Vec<String>,
    pub status: Option<StatusLine>,
    pub modal: Option<Modal>,
    pub preview: String,
    pub preview_is_error: bool,
    pub filter_mode: bool,
    pub filter_query: String,
}

/// A visible row of the tree: a session, or one of its windows.
#[derive(Debug, Clone, Copy, PartialEq, Eq)]
pub struct TreeRow {
    pub session_index: usize,
    pub window_index: Option<usize>,
}

// ---------------------------------------------------------------------------
// The model
// ---------------------------------------------------------------------------
/// The names held in a list of names.
pub open spec fn name_set(names: Seq<String>) -> Set<Seq<char>> {
    Set::new(|n: Seq<char>| exists|i: int| 0 <= i < names.len() && #[trigger] names[i]@ == n)
}

/// Whether the filter query holds more than whitespace.
pub open spec fn filter_active_of(filter_query: Seq<char>) -> bool {
    trim(filter_query).len() > 0
}

/// The query that names are matched against: the filter trimmed and lowercased.
pub open spec fn query_of(filter_query: Seq<char>) -> Seq<char> {
    if trim(filter_query).len() == 0 {
        Seq::empty()
    } else {
        lowercase_of(trim(filter_query))
    }
}

/// Whether a window matches the query, by name or by index.
pub open spec fn window_matches(query: Seq<char>, window: Window) -> bool {
    ||| query.len() == 0
    ||| has_substring(lowercase_of(window.name@), query)
    ||| has_substring(lowercase_of(window.index@), query)
}

/// Whether a session matches the query, by name or through one of its windows.
pub open spec fn session_matches(query: Seq<char>, session: Session) -> bool {
    ||| query.len() == 0
    ||| has_substring(lowercase_of(session.name@), query)
    ||| exists|j: int|
        0 <= j < session.windows@.len() && window_matches(query, #[trigger] session.windows@[j])
}

/// The rows of the first `k` windows of session `i`.
pub open spec fn window_rows(sessions: Seq<Session>, filter_query: Seq<char>, i: int, k: int) -> Seq<
    TreeRow,
>
    decreases k,
{
    if k <= 0 {
        seq![]
    } else {
        let w = sessions[i].windows@[k - 1];
        window_rows(sessions, filter_query, i, k - 1) + if !filter_active_of(filter_query)
            || window_matches(query_of(filter_query), w) {
            seq![TreeRow { session_index: i as usize, window_index: Some((k - 1) as usize) }]
        } else {
            seq![]
        }
    }
}

/// The rows of session `i`: none when it does not match the filter; else its own row,
/// followed by its windows' rows when it is expanded or a filter is active.
pub open spec fn session_rows(
    sessions: Seq<Session>,
    expanded: Set<Seq<char>>,
    filter_query: Seq<char>,
    i: int,
) -> Seq<TreeRow> {
    let s = sessions[i];
    if !session_matches(query_of(filter_query), s) {
        seq![]
    } else {
        seq![TreeRow { session_index: i as usize, window_index: None }] + if filter_active_of(
            filter_query,
        ) || expanded.contains(s.name@) {
            window_rows(sessions, filter_query, i, s.windows@.len() as int)
        } else {
            seq![]
        }
    }
}

/// The rows of the first `n` sessions.
pub open spec fn rows_upto(
    sessions: Seq<Session>,
    expanded: Set<Seq<char>>,
    filter_query: Seq<char>,
    n: int,
) -> Seq<TreeRow>
    decreases n,
{
    if n <= 0 {
        seq![]
    } else {
        rows_upto(sessions, expanded, filter_query, n - 1) + session_rows(
            sessions,
            expanded,
            filter_query,
            n - 1,
        )
    }
}

/// Whether `row` is the row of the given selection.
pub open spec fn row_is(row: TreeRow, ss: Option<usize>, sw: Option<usize>) -> bool {
    ss == Some(row.session_index) && sw == row.window_index
}

/// The position of the first row of the given selection, or `rows.len()`.
pub open spec fn find_row(rows: Seq<TreeRow>, ss: Option<usize>, sw: Option<usize>) -> int
    decreases rows.len(),
{
    if rows.len() == 0 {
        0
    } else if row_is(rows[0], ss, sw) {
        0
    } else {
        1 + find_row(rows.drop_first(), ss, sw)
    }
}

/// The position of the first session named `name`, or `sessions.len()`.
pub open spec fn find_session(sessions: Seq<Session>, name: Seq<char>) -> int
    decreases sessions.len(),
{
    if sessions.len() == 0 {
        0
    } else if sessions[0].name@ == name {
        0
    } else {
        1 + find_session(sessions.drop_first(), name)
    }
}

/// The position of the first window with index `index`, or `windows.len()`.
pub open spec fn find_window(windows: Seq<Window>, index: Seq<char>) -> int
    decreases windows.len(),
{
    if windows.len() == 0 {
        0
    } else if windows[0].index@ == index {
        0
    } else {
        1 + find_window(windows.drop_first(), index)
    }
}

/// The window selection once brought in line with the selected session: kept only when
/// that session is expanded and has such a window.
pub open spec fn sync_window(
    sessions: Seq<Session>,
    expanded: Set<Seq<char>>,
    ss: Option<usize>,
    sw: Option<usize>,
) -> Option<usize> {
    match ss {
        None => sw,
        Some(i) => if i >= sessions.len() {
            sw
        } else {
            let s = sessions[i as int];
            match sw {
                Some(w) => if expanded.contains(s.name@) && w < s.windows@.len() {
                    Some(w)
                } else {
                    None
                },
                None => None,
            }
        },
    }
}

/// The selection by name that goes with the selected session and window.
pub open spec fn sync_selection(
    sessions: Seq<Session>,
    expanded: Set<Seq<char>>,
    ss: Option<usize>,
    sw: Option<usize>,
) -> Option<TreeSelection> {
    match ss {
        None => None,
        Some(i) => if i >= sessions.len() {
            None
        } else {
            let s = sessions[i as int];
            match sync_window(sessions, expanded, ss, sw) {
                Some(w) => Some(
                    TreeSelection::Window {
                        session_name: s.name,
                        window_index: s.windows@[w as int].index,
                    },
                ),
                None => Some(TreeSelection::Session { name: s.name }),
            }
        },
    }
}

/// The names of the sessions in `sessions` that are in `previous`.
pub open spec fn kept_names(previous: Set<Seq<char>>, sessions: Seq<Session>) -> Set<Seq<char>> {
    Set::new(
        |n: Seq<char>|
            previous.contains(n) && exists|i: int| 0 <= i < sessions.len() && #[trigger] sessions[i].name@
                == n,
    )
}

/// Where the selection goes after the sessions are replaced: to what was selected
/// before, found by name (to its session when the window is gone), else to the first
/// session.
pub open spec fn restored_target(sessions: Seq<Session>, previous: Option<TreeSelection>) -> (
    Option<usize>,
    Option<usize>,
) {
    let fallback = (Some(0usize), None::<usize>);
    if sessions.len() == 0 {
        (None, None)
    } else {
        match previous {
            None => fallback,
            Some(TreeSelection::Session { name }) => {
                let i = find_session(sessions, name@);
                if i < sessions.len() {
                    (Some(i as usize), None)
                } else {
                    fallback
                }
            },
            Some(TreeSelection::Window { session_name, window_index }) => {
                let i = find_session(sessions, session_name@);
                if i < sessions.len() {
                    let p = find_window(sessions[i].windows@, window_index@);
                    if p < sessions[i].windows@.len() {
                        (Some(i as usize), Some(p as usize))
                    } else {
                        (Some(i as usize), None)
                    }
                } else {
                    fallback
                }
            },
        }
    }
}

impl State {
    /// The names of the expanded sessions.
    pub open spec fn expanded(self) -> Set<Seq<char>> {
        name_set(self.expanded_sessions@)
    }

    /// The visible rows of the tree.
    pub open spec fn rows(self) -> Seq<TreeRow> {
        rows_upto(self.sessions@, self.expanded(), self.filter_query@, self.sessions@.len() as int)
    }

    /// The position of the selected row among the visible rows, if it is visible.
    pub open spec fn selected_row(self) -> Option<int> {
        let k = find_row(self.rows(), self.selected_session, self.selected_window);
        if k < self.rows().len() {
            Some(k)
        } else {
            None
        }
    }

    /// This state with session `ss` and window `sw` selected and the selection brought
    /// in line.
    pub open spec fn select_synced(self, ss: Option<usize>, sw: Option<usize>) -> State {
        State {
            selected_session: ss,
            selected_window: sync_window(self.sessions@, self.expanded(), ss, sw),
            selection: sync_selection(self.sessions@, self.expanded(), ss, sw),
            ..self
        }
    }

    /// This state with the selection brought in line with the selected indices.
    pub open spec fn synced(self) -> State {
        self.select_synced(self.selected_session, self.selected_window)
    }

    /// This state with `row` selected.
    pub open spec fn with_row(self, row: TreeRow) -> State {
        self.select_synced(Some(row.session_index), row.window_index)
    }

    /// This state with another list of expanded names.
    pub open spec fn with_expanded(self, names: Vec<String>) -> State {
        State { expanded_sessions: names, ..self }
    }

    /// This state with another filter query.
    pub open spec fn with_filter(self, query: String) -> State {
        State { filter_query: query, ..self }
    }

    /// The state after a change of the filter: nothing selected when no row is visible,
    /// the first row when the selected one is hidden, else the same selection.
    pub open spec fn normalized(self) -> State {
        let rows = self.rows();
        if rows.len() == 0 {
            State { selected_session: None, selected_window: None, selection: None, ..self }
        } else if self.selected_row() is None {
            self.with_row(rows[0])
        } else {
            self.synced()
        }
    }

    /// The state after moving the selection one row up, wrapping to the last row.
    pub open spec fn moved_up(self) -> State {
        match self.selected_row() {
            None => self,
            Some(k) => self.with_row(
                self.rows()[if k == 0 {
                    self.rows().len() - 1
                } else {
                    k - 1
                }],
            ),
        }
    }

    /// The state after moving the selection one row down, wrapping to the first row.
    pub open spec fn moved_down(self) -> State {
        match self.selected_row() {
            None => self,
            Some(k) => self.with_row(
                self.rows()[if k + 1 >= self.rows().len() {
                    0
                } else {
                    k + 1
                }],
            ),
        }
    }

    /// The selected session, if the index points at one.
    pub open spec fn selected_index(self) -> Option<int> {
        match self.selected_session {
            Some(i) => if i < self.sessions@.len() {
                Some(i as int)
            } else {
                None
            },
            None => None,
        }
    }

    /// This state with the next window of the selected session selected, wrapping to
    /// the first; unchanged when no session is selected or it has no windows.
    pub open spec fn cycled_window(self) -> State {
        match self.selected_index() {
            None => self,
            Some(i) => {
                let n = self.sessions@[i].windows@.len();
                if n == 0 {
                    self
                } else {
                    self.select_synced(
                        self.selected_session,
                        Some(
                            match self.selected_window {
                                None => 0usize,
                                Some(w) => ((w + 1) % (n as int)) as usize,
                            },
                        ),
                    )
                }
            },
        }
    }

    /// The focus after `cycle_focus`.
    pub open spec fn next_focus(focus: FocusRegion) -> FocusRegion {
        match focus {
            FocusRegion::Tree => FocusRegion::Details,
            FocusRegion::Details => FocusRegion::Help,
            FocusRegion::Help => FocusRegion::Tree,
            FocusRegion::Modal => FocusRegion::Tree,
        }
    }

    /// The label of a focus region.
    pub open spec fn focus_label_of(focus: FocusRegion) -> Seq<char> {
        match focus {
            FocusRegion::Tree => "tree"@,
            FocusRegion::Details => "details"@,
            FocusRegion::Help => "help"@,
            FocusRegion::Modal => "modal"@,
        }
    }

    /// The selected window, if the indices point at one.
    pub open spec fn selected_window_position(self) -> Option<(int, int)> {
        match self.selected_index() {
            Some(i) => match self.selected_window {
                Some(w) => if w < self.sessions@[i].windows@.len() {
                    Some((i, w as int))
                } else {
                    None
                },
                None => None,
            },
            None => None,
        }
    }

    /// `before` with the sessions replaced by `sessions` and the expanded names by
    /// `names`, and the selection following what was selected before.
    pub open spec fn replaced(before: State, sessions: Vec<Session>, names: Vec<String>) -> State {
        (State { sessions: sessions, expanded_sessions: names, ..before }).select_synced(
            restored_target(sessions@, before.selection).0,
            restored_target(sessions@, before.selection).1,
        )
    }

    /// This state with another preview.
    pub open spec fn with_preview(self, preview: String, is_error: bool) -> State {
        State { preview: preview, preview_is_error: is_error, ..self }
    }

    /// This state with the first session named `name` selected; unchanged when there
    /// is none.
    pub open spec fn selected_by_name(self, name: Seq<char>) -> State {
        let i = find_session(self.sessions@, name);
        if i < self.sessions@.len() {
            self.select_synced(Some(i as usize), None)
        } else {
            self
        }
    }

    /// This state with the window `index` of the first session named `name` selected;
    /// unchanged when there is no such window.
    pub open spec fn selected_by_identity(self, name: Seq<char>, index: Seq<char>) -> State {
        let i = find_session(self.sessions@, name);
        if i < self.sessions@.len() {
            let p = find_window(self.sessions@[i].windows@, index);
            if p < self.sessions@[i].windows@.len() {
                self.select_synced(Some(i as usize), Some(p as usize))
            } else {
                self
            }
        } else {
            self
        }
    }

    /// `after` is `before` with the selected session expanded.
    pub open spec fn expanded_from(before: State, after: State) -> bool {
        match before.selected_index() {
            None => after == before,
            Some(i) => {
                &&& after.expanded() == before.expanded().insert(before.sessions@[i].name@)
                &&& after == before.with_expanded(after.expanded_sessions).select_synced(
                    before.selected_session,
                    before.selected_window,
                )
            },
        }
    }

    /// `after` is `before` with the selected session collapsed and itself selected.
    pub open spec fn collapsed_from(before: State, after: State) -> bool {
        match before.selected_index() {
            None => after == before,
            Some(i) => {
                &&& after.expanded() == before.expanded().remove(before.sessions@[i].name@)
                &&& after == before.with_expanded(after.expanded_sessions).select_synced(
                    before.selected_session,
                    None,
                )
            },
        }
    }

    /// `after` is `before` with the selected session expanded when it was collapsed, and
    /// collapsed (and itself selected) when it was expanded.
    pub open spec fn toggled_from(before: State, after: State) -> bool {
        match before.selected_index() {
            None => after == before,
            Some(i) => {
                let name = before.sessions@[i].name@;
                let was = before.expanded().contains(name);
                &&& after.expanded() == if was {
                    before.expanded().remove(name)
                } else {
                    before.expanded().insert(name)
                }
                &&& after == before.with_expanded(after.expanded_sessions).select_synced(
                    before.selected_session,
                    if was {
                        None
                    } else {
                        before.selected_window
                    },
                )
            },
        }
    }

    /// The well-formed states: the selected session exists, no window is selected
    /// without a session, and the selection by name agrees with the indices.
    pub open spec fn wf(self) -> bool {
        &&& (self.selected_session is None ==> self.selected_window is None && self.selection is None)
        &&& (self.selected_session matches Some(i) ==> i < self.sessions@.len())
        &&& self == self.synced()
    }
}

// ---------------------------------------------------------------------------
// Lemmas
// ---------------------------------------------------------------------------
proof fn lemma_find_row(rows: Seq<TreeRow>, ss: Option<usize>, sw: Option<usize>)
    ensures
        0 <= find_row(rows, ss, sw) <= rows.len(),
        forall|j: int| 0 <= j < find_row(rows, ss, sw) ==> !row_is(#[trigger] rows[j], ss, sw),
        find_row(rows, ss, sw) < rows.len() ==> row_is(rows[find_row(rows, ss, sw)], ss, sw),
    decreases rows.len(),
{
    if rows.len() > 0 && !row_is(rows[0], ss, sw) {
        lemma_find_row(rows.drop_first(), ss, sw);
        assert forall|j: int| 0 <= j < find_row(rows, ss, sw) implies !row_is(
            #[trigger] rows[j],
            ss,
            sw,
        ) by {
            if j > 0 {
                assert(rows[j] == rows.drop_first()[j - 1]);
            }
        }
    }
}

proof fn lemma_find_session(sessions: Seq<Session>, name: Seq<char>)
    ensures
        0 <= find_session(sessions, name) <= sessions.len(),
        forall|j: int| 0 <= j < find_session(sessions, name) ==> (#[trigger] sessions[j]).name@ != name,
        find_session(sessions, name) < sessions.len() ==> sessions[find_session(sessions, name)].name@
            == name,
    decreases sessions.len(),
{
    if sessions.len() > 0 && sessions[0].name@ != name {
        lemma_find_session(sessions.drop_first(), name);
        assert forall|j: int| 0 <= j < find_session(sessions, name) implies (
        #[trigger] sessions[j]).name@ != name by {
            if j > 0 {
                assert(sessions[j] == sessions.drop_first()[j - 1]);
            }
        }
    }
}

proof fn lemma_find_window(windows: Seq<Window>, index: Seq<char>)
    ensures
        0 <= find_window(windows, index) <= windows.len(),
        forall|j: int| 0 <= j < find_window(windows, index) ==> (#[trigger] windows[j]).index@ != index,
        find_window(windows, index) < windows.len() ==> windows[find_window(windows, index)].index@
            == index,
    decreases windows.len(),
{
    if windows.len() > 0 && windows[0].index@ != index {
        lemma_find_window(windows.drop_first(), index);
        assert forall|j: int| 0 <= j < find_window(windows, index) implies (
        #[trigger] windows[j]).index@ != index by {
            if j > 0 {
                assert(windows[j] == windows.drop_first()[j - 1]);
            }
        }
    }
}

proof fn lemma_find_row_at(rows: Seq<TreeRow>, ss: Option<usize>, sw: Option<usize>, k: int)
    requires
        0 <= k <= rows.len(),
        forall|j: int| 0 <= j < k ==> !row_is(#[trigger] rows[j], ss, sw),
        k < rows.len() ==> row_is(rows[k], ss, sw),
    ensures
        find_row(rows, ss, sw) == k,
{
    lemma_find_row(rows, ss, sw);
}

proof fn lemma_find_session_at(sessions: Seq<Session>, name: Seq<char>, k: int)
    requires
        0 <= k <= sessions.len(),
        forall|j: int| 0 <= j < k ==> (#[trigger] sessions[j]).name@ != name,
        k < sessions.len() ==> sessions[k].name@ == name,
    ensures
        find_session(sessions, name) == k,
{
    lemma_find_session(sessions, name);
}

proof fn lemma_find_window_at(windows: Seq<Window>, index: Seq<char>, k: int)
    requires
        0 <= k <= windows.len(),
        forall|j: int| 0 <= j < k ==> (#[trigger] windows[j]).index@ != index,
        k < windows.len() ==> windows[k].index@ == index,
    ensures
        find_window(windows, index) == k,
{
    lemma_find_window(windows, index);
}

proof fn lemma_next_mod(w: int, n: int)
    requires
        n > 0,
        w >= 0,
    ensures
        (w % n + 1) % n == (w + 1) % n,
{
    vstd::arithmetic::div_mod::lemma_add_mod_noop(w, 1, n);
    if n > 1 {
        vstd::arithmetic::div_mod::lemma_small_mod(1, n as nat);
    } else {
        assert((w % n + 1) % n == 0) by (nonlinear_arith)
            requires n == 1;
        assert((w + 1) % n == 0) by (nonlinear_arith)
            requires n == 1;
    }
}

/// Bringing the selection in line twice changes nothing the second time.
pub proof fn lemma_sync_idempotent(
    sessions: Seq<Session>,
    expanded: Set<Seq<char>>,
    ss: Option<usize>,
    sw: Option<usize>,
)
    ensures
        sync_window(sessions, expanded, ss, sync_window(sessions, expanded, ss, sw)) == sync_window(
            sessions,
            expanded,
            ss,
            sw,
        ),
        sync_selection(sessions, expanded, ss, sync_window(sessions, expanded, ss, sw))
            == sync_selection(sessions, expanded, ss, sw),
{
}

proof fn lemma_window_rows_bounded(sessions: Seq<Session>, filter_query: Seq<char>, i: int, k: int)
    requires
        0 <= i < sessions.len(),
        0 <= k <= sessions[i].windows@.len(),
        i <= usize::MAX,
        k <= usize::MAX,
    ensures
        forall|r: int|
            0 <= r < window_rows(sessions, filter_query, i, k).len() ==> {
                let row = #[trigger] window_rows(sessions, filter_query, i, k)[r];
                &&& row.session_index == i
                &&& row.window_index matches Some(w) && w < k
            },
    decreases k,
{
    if k > 0 {
        lemma_window_rows_bounded(sessions, filter_query, i, k - 1);
    }
}

/// Every visible row points at a session, and at a window of that session.
pub proof fn lemma_rows_bounded(
    sessions: Seq<Session>,
    expanded: Set<Seq<char>>,
    filter_query: Seq<char>,
    n: int,
)
    requires
        0 <= n <= sessions.len(),
        sessions.len() <= usize::MAX,
        forall|i: int| 0 <= i < sessions.len() ==> (#[trigger] sessions[i]).windows@.len() <= usize::MAX,
    ensures
        forall|r: int|
            0 <= r < rows_upto(sessions, expanded, filter_query, n).len() ==> {
                let row = #[trigger] rows_upto(sessions, expanded, filter_query, n)[r];
                &&& row.session_index < n
                &&& row.window_index matches Some(w) ==> w < sessions[row.session_index as int].windows@.len()
            },
    decreases n,
{
    if n > 0 {
        lemma_rows_bounded(sessions, expanded, filter_query, n - 1);
        let i = n - 1;
        let s = sessions[i];
        lemma_window_rows_bounded(sessions, filter_query, i, s.windows@.len() as int);
        let prefix = rows_upto(sessions, expanded, filter_query, n - 1);
        let block = session_rows(sessions, expanded, filter_query, i);
        assert forall|r: int| 0 <= r < rows_upto(sessions, expanded, filter_query, n).len() implies {
            let row = #[trigger] rows_upto(sessions, expanded, filter_query, n)[r];
            &&& row.session_index < n
            &&& row.window_index matches Some(w) ==> w < sessions[row.session_index as int].windows@.len()
        } by {
            if r >= prefix.len() {
                let b = r - prefix.len();
                if session_matches(query_of(filter_query), s) && b > 0 {
                    let wr = window_rows(sessions, filter_query, i, s.windows@.len() as int);
                    assert(block[b] == wr[b - 1]);
                }
            }
        }
    }
}

impl State {
    /// The lengths of the sessions and of their window lists fit a `usize`, as they do
    /// for any list held in memory.
    pub open spec fn sizes_fit(self) -> bool {
        &&& self.sessions@.len() <= usize::MAX
        &&& forall|i: int|
            0 <= i < self.sessions@.len() ==> (#[trigger] self.sessions@[i]).windows@.len()
                <= usize::MAX
    }
}

/// The lengths of a state fit a `usize`.
pub proof fn lemma_sizes_fit(st: State)
    ensures
        st.sizes_fit(),
{
    assert(st.sessions@.len() == st.sessions.len());
    assert forall|i: int| 0 <= i < st.sessions@.len() implies (
    #[trigger] st.sessions@[i]).windows@.len() <= usize::MAX by {
        assert(st.sessions@[i].windows@.len() == st.sessions@[i].windows.len());
    }
}

proof fn lemma_restored_target_bounds(sessions: Seq<Session>, previous: Option<TreeSelection>)
    requires
        sessions.len() <= usize::MAX,
    ensures
        restored_target(sessions, previous).0 matches Some(i) ==> i < sessions.len(),
        restored_target(sessions, previous).0 is None ==> restored_target(sessions, previous).1 is None,
{
    match previous {
        Some(TreeSelection::Session { name }) => lemma_find_session(sessions, name@),
        Some(TreeSelection::Window { session_name, window_index }) => lemma_find_session(
            sessions,
            session_name@,
        ),
        None => {},
    }
}

/// Selecting an existing session, with any window, gives a well-formed state.
pub proof fn lemma_select_synced_wf(st: State, ss: Option<usize>, sw: Option<usize>)
    requires
        ss matches Some(i) ==> i < st.sessions@.len(),
        ss is None ==> sw is None,
    ensures
        st.select_synced(ss, sw).wf(),
{
    lemma_sync_idempotent(st.sessions@, st.expanded(), ss, sw);
}

/// Selecting a visible row gives a well-formed state.
pub proof fn lemma_with_row_wf(st: State, k: int)
    requires
        0 <= k < st.rows().len(),
    ensures
        st.with_row(st.rows()[k]).wf(),
{
    lemma_sizes_fit(st);
    lemma_rows_bounded(st.sessions@, st.expanded(), st.filter_query@, st.sessions@.len() as int);
    let row = st.rows()[k];
    lemma_select_synced_wf(st, Some(row.session_index), row.window_index);
}

/// A change of the filter keeps a well-formed state well-formed.
pub proof fn lemma_normalized_wf(st: State)
    requires
        st.wf(),
    ensures
        st.normalized().wf(),
{
    if st.rows().len() > 0 {
        if st.selected_row() is None {
            lemma_with_row_wf(st, 0);
        }
    }
}


// ---------------------------------------------------------------------------
// The order of the rows
// ---------------------------------------------------------------------------
/// The place of a row's window within its session: 0 for the session row itself.
pub open spec fn window_rank(w: Option<usize>) -> int {
    match w {
        None => 0,
        Some(j) => j + 1,
    }
}

/// Whether row `a` comes before row `b` in the tree.
pub open spec fn row_before(a: TreeRow, b: TreeRow) -> bool {
    ||| a.session_index < b.session_index
    ||| a.session_index == b.session_index && window_rank(a.window_index) < window_rank(
        b.window_index,
    )
}

/// Whether the rows are in tree order, each one once.
pub open spec fn rows_sorted(rows: Seq<TreeRow>) -> bool {
    forall|p: int, q: int| 0 <= p < q < rows.len() ==> row_before(#[trigger] rows[p], #[trigger] rows[q])
}

proof fn lemma_sorted_concat(a: Seq<TreeRow>, b: Seq<TreeRow>)
    requires
        rows_sorted(a),
        rows_sorted(b),
        forall|p: int, q: int|
            0 <= p < a.len() && 0 <= q < b.len() ==> row_before(#[trigger] a[p], #[trigger] b[q]),
    ensures
        rows_sorted(a + b),
{
    assert forall|p: int, q: int| 0 <= p < q < (a + b).len() implies row_before(
        #[trigger] (a + b)[p],
        #[trigger] (a + b)[q],
    ) by {
        if q < a.len() {
            assert(row_before(a[p], a[q]));
        } else if p >= a.len() {
            assert(row_before(b[p - a.len()], b[q - a.len()]));
        } else {
            assert(row_before(a[p], b[q - a.len()]));
        }
    }
}

proof fn lemma_window_rows_sorted(sessions: Seq<Session>, filter_query: Seq<char>, i: int, k: int)
    requires
        0 <= i < sessions.len(),
        0 <= k <= sessions[i].windows@.len(),
        i <= usize::MAX,
        k <= usize::MAX,
    ensures
        rows_sorted(window_rows(sessions, filter_query, i, k)),
    decreases k,
{
    if k > 0 {
        lemma_window_rows_sorted(sessions, filter_query, i, k - 1);
        lemma_window_rows_bounded(sessions, filter_query, i, k - 1);
        let a = window_rows(sessions, filter_query, i, k - 1);
        let w = sessions[i].windows@[k - 1];
        let b = if !filter_active_of(filter_query) || window_matches(query_of(filter_query), w) {
            seq![TreeRow { session_index: i as usize, window_index: Some((k - 1) as usize) }]
        } else {
            seq![]
        };
        lemma_sorted_concat(a, b);
    }
}

proof fn lemma_session_rows_sorted(
    sessions: Seq<Session>,
    expanded: Set<Seq<char>>,
    filter_query: Seq<char>,
    i: int,
)
    requires
        0 <= i < sessions.len(),
        sessions.len() <= usize::MAX,
        sessions[i].windows@.len() <= usize::MAX,
    ensures
        rows_sorted(session_rows(sessions, expanded, filter_query, i)),
        forall|r: int|
            0 <= r < session_rows(sessions, expanded, filter_query, i).len() ==> (#[trigger] session_rows(
                sessions,
                expanded,
                filter_query,
                i,
            )[r]).session_index == i,
{
    let n = sessions[i].windows@.len() as int;
    lemma_window_rows_sorted(sessions, filter_query, i, n);
    lemma_window_rows_bounded(sessions, filter_query, i, n);
    let head = seq![TreeRow { session_index: i as usize, window_index: None }];
    let wr = window_rows(sessions, filter_query, i, n);
    if session_matches(query_of(filter_query), sessions[i]) {
        if filter_active_of(filter_query) || expanded.contains(sessions[i].name@) {
            lemma_sorted_concat(head, wr);
        } else {
            assert(head + seq![] == head);
        }
    }
}

/// The rows of the tree are in tree order, each one once.
pub proof fn lemma_rows_sorted(
    sessions: Seq<Session>,
    expanded: Set<Seq<char>>,
    filter_query: Seq<char>,
    n: int,
)
    requires
        0 <= n <= sessions.len(),
        sessions.len() <= usize::MAX,
        forall|i: int| 0 <= i < sessions.len() ==> (#[trigger] sessions[i]).windows@.len() <= usize::MAX,
    ensures
        rows_sorted(rows_upto(sessions, expanded, filter_query, n)),
    decreases n,
{
    if n > 0 {
        lemma_rows_sorted(sessions, expanded, filter_query, n - 1);
        lemma_rows_bounded(sessions, expanded, filter_query, n - 1);
        lemma_session_rows_sorted(sessions, expanded, filter_query, n - 1);
        let a = rows_upto(sessions, expanded, filter_query, n - 1);
        let b = session_rows(sessions, expanded, filter_query, n - 1);
        assert forall|p: int, q: int| 0 <= p < a.len() && 0 <= q < b.len() implies row_before(
            #[trigger] a[p],
            #[trigger] b[q],
        ) by {
            assert(a[p].session_index < n - 1);
            assert(b[q].session_index == n - 1);
        }
        lemma_sorted_concat(a, b);
    }
}

proof fn lemma_find_sorted(rows: Seq<TreeRow>, q: int)
    requires
        rows_sorted(rows),
        0 <= q < rows.len(),
    ensures
        find_row(rows, Some(rows[q].session_index), rows[q].window_index) == q,
{
    let ss = Some(rows[q].session_index);
    let sw = rows[q].window_index;
    assert forall|j: int| 0 <= j < q implies !row_is(#[trigger] rows[j], ss, sw) by {
        assert(row_before(rows[j], rows[q]));
    }
    lemma_find_row_at(rows, ss, sw, q);
}

/// Without an active filter, every visible row is kept as it is when selected.
proof fn lemma_rows_stable(st: State, k: int)
    requires
        0 <= k < st.rows().len(),
        !filter_active_of(st.filter_query@),
    ensures
        sync_window(
            st.sessions@,
            st.expanded(),
            Some(st.rows()[k].session_index),
            st.rows()[k].window_index,
        ) == st.rows()[k].window_index,
{
    lemma_sizes_fit(st);
    lemma_rows_bounded(st.sessions@, st.expanded(), st.filter_query@, st.sessions@.len() as int);
    lemma_rows_in_expanded(st.sessions@, st.expanded(), st.filter_query@, st.sessions@.len() as int);
}

proof fn lemma_rows_in_expanded(
    sessions: Seq<Session>,
    expanded: Set<Seq<char>>,
    filter_query: Seq<char>,
    n: int,
)
    requires
        0 <= n <= sessions.len(),
        !filter_active_of(filter_query),
        sessions.len() <= usize::MAX,
        forall|i: int| 0 <= i < sessions.len() ==> (#[trigger] sessions[i]).windows@.len() <= usize::MAX,
    ensures
        forall|r: int|
            0 <= r < rows_upto(sessions, expanded, filter_query, n).len() && (
            #[trigger] rows_upto(sessions, expanded, filter_query, n)[r]).window_index is Some
                ==> expanded.contains(
                sessions[rows_upto(sessions, expanded, filter_query, n)[r].session_index as int].name@,
            ),
    decreases n,
{
    if n > 0 {
        lemma_rows_in_expanded(sessions, expanded, filter_query, n - 1);
        let i = n - 1;
        let s = sessions[i];
        lemma_window_rows_bounded(sessions, filter_query, i, s.windows@.len() as int);
        let prefix = rows_upto(sessions, expanded, filter_query, n - 1);
        let block = session_rows(sessions, expanded, filter_query, i);
        assert forall|r: int|
            0 <= r < rows_upto(sessions, expanded, filter_query, n).len() && (
            #[trigger] rows_upto(sessions, expanded, filter_query, n)[r]).window_index is Some implies expanded.contains(
            sessions[rows_upto(sessions, expanded, filter_query, n)[r].session_index as int].name@,
        ) by {
            if r >= prefix.len() {
                let b = r - prefix.len();
                if session_matches(query_of(filter_query), s) && b > 0 {
                    let wr = window_rows(sessions, filter_query, i, s.windows@.len() as int);
                    assert(block[b] == wr[b - 1]);
                }
            }
        }
    }
}

/// Without an active filter, moving the selection down and then up again restores
/// the state, when the selected row is visible.
pub proof fn lemma_move_down_then_up(st: State)
    requires
        st.wf(),
        st.selected_row() is Some,
        !filter_active_of(st.filter_query@),
    ensures
        st.moved_down().moved_up() == st,
{
    lemma_sizes_fit(st);
    lemma_rows_sorted(st.sessions@, st.expanded(), st.filter_query@, st.sessions@.len() as int);
    let rows = st.rows();
    let k = st.selected_row()->0;
    lemma_find_row(rows, st.selected_session, st.selected_window);
    let next = if k + 1 >= rows.len() { 0 } else { k + 1 };
    lemma_rows_stable(st, next);
    let mid = st.moved_down();
    assert(mid.rows() == rows);
    lemma_find_sorted(rows, next);
    assert(mid.selected_row() == Some(next));
    let prev = if next == 0 { rows.len() - 1 } else { next - 1 };
    assert(prev == k);
    lemma_sync_idempotent(st.sessions@, st.expanded(), st.selected_session, st.selected_window);
}

/// Without an active filter, moving the selection up and then down again restores
/// the state, when the selected row is visible.
pub proof fn lemma_move_up_then_down(st: State)
    requires
        st.wf(),
        st.selected_row() is Some,
        !filter_active_of(st.filter_query@),
    ensures
        st.moved_up().moved_down() == st,
{
    lemma_sizes_fit(st);
    lemma_rows_sorted(st.sessions@, st.expanded(), st.filter_query@, st.sessions@.len() as int);
    let rows = st.rows();
    let k = st.selected_row()->0;
    lemma_find_row(rows, st.selected_session, st.selected_window);
    let prev = if k == 0 { rows.len() - 1 } else { k - 1 };
    lemma_rows_stable(st, prev);
    let mid = st.moved_up();
    assert(mid.rows() == rows);
    lemma_find_sorted(rows, prev);
    assert(mid.selected_row() == Some(prev));
    lemma_sync_idempotent(st.sessions@, st.expanded(), st.selected_session, st.selected_window);
}

/// Typing a character into the filter and deleting it again gives back the same
/// filter and the same visible rows.
pub proof fn lemma_filter_type_then_delete(st: State, c: char, typed: String, deleted: String)
    requires
        typed@ == st.filter_query@.push(c),
        deleted@ == typed@.drop_last(),
    ensures
        ({
            let after_typing = st.with_filter(typed).normalized();
            let after_deleting = after_typing.with_filter(deleted).normalized();
            &&& after_deleting.filter_query@ == st.filter_query@
            &&& after_deleting.rows() == st.rows()
        }),
{
    assert(deleted@ =~= st.filter_query@);
    let after_typing = st.with_filter(typed).normalized();
    let after_deleting = after_typing.with_filter(deleted).normalized();
    assert(after_deleting.sessions == st.sessions);
    assert(after_deleting.expanded_sessions == st.expanded_sessions);
}

/// Toggling the selected session twice gives back the same expanded sessions and the
/// same visible rows.
pub proof fn lemma_toggle_twice(a: State, b: State, c: State)
    requires
        State::toggled_from(a, b),
        State::toggled_from(b, c),
    ensures
        c.expanded() == a.expanded(),
        c.rows() == a.rows(),
{
    if let Some(i) = a.selected_index() {
        assert(b.selected_index() == Some(i));
        assert(c.expanded() =~= a.expanded());
    }
}

/// The row of session `i` itself.
pub open spec fn session_row(i: int) -> TreeRow {
    TreeRow { session_index: i as usize, window_index: None }
}

/// The rows of windows `0..k` of session `i`, all of them.
pub open spec fn all_window_rows(i: int, k: int) -> Seq<TreeRow>
    decreases k,
{
    if k <= 0 {
        seq![]
    } else {
        all_window_rows(i, k - 1).push(
            TreeRow { session_index: i as usize, window_index: Some((k - 1) as usize) },
        )
    }
}

/// The rows of the first `n` sessions with no filter: each session, followed by all its
/// windows when it is expanded.
pub open spec fn plain_rows(sessions: Seq<Session>, expanded: Set<Seq<char>>, n: int) -> Seq<
    TreeRow,
>
    decreases n,
{
    if n <= 0 {
        seq![]
    } else {
        let s = sessions[n - 1];
        plain_rows(sessions, expanded, n - 1) + seq![
            TreeRow { session_index: (n - 1) as usize, window_index: None },
        ] + if expanded.contains(s.name@) {
            all_window_rows(n - 1, s.windows@.len() as int)
        } else {
            seq![]
        }
    }
}

proof fn lemma_unfiltered_window_rows(sessions: Seq<Session>, filter_query: Seq<char>, i: int, k: int)
    requires
        !filter_active_of(filter_query),
    ensures
        window_rows(sessions, filter_query, i, k) == all_window_rows(i, k),
    decreases k,
{
    if k > 0 {
        lemma_unfiltered_window_rows(sessions, filter_query, i, k - 1);
    }
}

proof fn lemma_unfiltered_rows_upto(
    sessions: Seq<Session>,
    expanded: Set<Seq<char>>,
    filter_query: Seq<char>,
    n: int,
)
    requires
        !filter_active_of(filter_query),
    ensures
        rows_upto(sessions, expanded, filter_query, n) == plain_rows(sessions, expanded, n),
    decreases n,
{
    if n > 0 {
        lemma_unfiltered_rows_upto(sessions, expanded, filter_query, n - 1);
        let s = sessions[n - 1];
        assert(query_of(filter_query).len() == 0);
        assert(session_matches(query_of(filter_query), s));
        lemma_unfiltered_window_rows(sessions, filter_query, n - 1, s.windows@.len() as int);
        assert(rows_upto(sessions, expanded, filter_query, n) =~= plain_rows(sessions, expanded, n));
    }
}

proof fn lemma_plain_rows_list_sessions(sessions: Seq<Session>, expanded: Set<Seq<char>>, n: int, i: int)
    requires
        0 <= i < n,
    ensures
        plain_rows(sessions, expanded, n).contains(
            TreeRow { session_index: i as usize, window_index: None },
        ),
    decreases n,
{
    let row = TreeRow { session_index: i as usize, window_index: None };
    let prev = plain_rows(sessions, expanded, n - 1);
    let all = plain_rows(sessions, expanded, n);
    if i == n - 1 {
        assert(all[prev.len() as int] == row);
    } else {
        lemma_plain_rows_list_sessions(sessions, expanded, n - 1, i);
        let k = choose|k: int| 0 <= k < prev.len() && prev[k] == row;
        assert(all[k] == row);
    }
}

/// With no filter, the tree lists every session, each followed by all its windows when
/// it is expanded, and nothing else.
pub proof fn lemma_unfiltered_tree(st: State)
    requires
        !filter_active_of(st.filter_query@),
    ensures
        st.rows() == plain_rows(st.sessions@, st.expanded(), st.sessions@.len() as int),
        forall|i: int| 0 <= i < st.sessions@.len() ==> st.rows().contains(#[trigger] session_row(i)),
{
    let n = st.sessions@.len() as int;
    lemma_unfiltered_rows_upto(st.sessions@, st.expanded(), st.filter_query@, n);
    assert forall|i: int| 0 <= i < n implies st.rows().contains(#[trigger] session_row(i)) by {
        lemma_plain_rows_list_sessions(st.sessions@, st.expanded(), n, i);
    }
}

/// Bringing the selection in line leaves the sessions, the expanded names and the
/// selected session as they are; then no selection by name goes without a selected
/// session, a selected window belongs to an expanded session that has it, and the
/// selection by name names the selected window, else the selected session.
pub proof fn lemma_synced_selection(st: State)
    ensures
        ({
            let t = st.synced();
            &&& t.sessions == st.sessions
            &&& t.expanded_sessions == st.expanded_sessions
            &&& t.selected_session == st.selected_session
            &&& match t.selected_index() {
                None => t.selection is None,
                Some(i) => {
                    let s = t.sessions@[i];
                    &&& (t.selected_window matches Some(j) ==> t.expanded().contains(s.name@)
                        && j < s.windows@.len())
                    &&& t.selection == match t.selected_window {
                        Some(j) => Some(
                            TreeSelection::Window {
                                session_name: s.name,
                                window_index: s.windows@[j as int].index,
                            },
                        ),
                        None => Some(TreeSelection::Session { name: s.name }),
                    }
                },
            }
        }),
{
}

proof fn lemma_matching_session_listed(
    sessions: Seq<Session>,
    expanded: Set<Seq<char>>,
    filter_query: Seq<char>,
    n: int,
    i: int,
)
    requires
        0 <= i < n,
        has_substring(lowercase_of(sessions[i].name@), query_of(filter_query)),
    ensures
        rows_upto(sessions, expanded, filter_query, n).contains(session_row(i)),
    decreases n,
{
    let prev = rows_upto(sessions, expanded, filter_query, n - 1);
    let all = rows_upto(sessions, expanded, filter_query, n);
    if i == n - 1 {
        assert(all[prev.len() as int] == session_row(i));
    } else {
        lemma_matching_session_listed(sessions, expanded, filter_query, n - 1, i);
        let k = choose|k: int| 0 <= k < prev.len() && prev[k] == session_row(i);
        assert(all[k] == session_row(i));
    }
}

/// A session whose lowercased name contains the lowercased, trimmed filter is shown,
/// whatever its windows are.
pub proof fn lemma_session_name_match_shown(st: State, i: int)
    requires
        0 <= i < st.sessions@.len(),
        filter_active_of(st.filter_query@),
        has_substring(
            lowercase_of(st.sessions@[i].name@),
            lowercase_of(trim(st.filter_query@)),
        ),
    ensures
        st.rows().contains(session_row(i)),
{
    lemma_matching_session_listed(
        st.sessions@,
        st.expanded(),
        st.filter_query@,
        st.sessions@.len() as int,
        i,
    );
}

proof fn lemma_session_rows_in_rows(
    sessions: Seq<Session>,
    expanded: Set<Seq<char>>,
    filter_query: Seq<char>,
    n: int,
    i: int,
    row: TreeRow,
)
    requires
        0 <= i < n,
        session_rows(sessions, expanded, filter_query, i).contains(row),
    ensures
        rows_upto(sessions, expanded, filter_query, n).contains(row),
    decreases n,
{
    let prev = rows_upto(sessions, expanded, filter_query, n - 1);
    let own = session_rows(sessions, expanded, filter_query, n - 1);
    let all = rows_upto(sessions, expanded, filter_query, n);
    if i == n - 1 {
        let k = choose|k: int| 0 <= k < own.len() && own[k] == row;
        assert(all[prev.len() + k] == row);
    } else {
        lemma_session_rows_in_rows(sessions, expanded, filter_query, n - 1, i, row);
        let k = choose|k: int| 0 <= k < prev.len() && prev[k] == row;
        assert(all[k] == row);
    }
}

proof fn lemma_matching_window_row(
    sessions: Seq<Session>,
    filter_query: Seq<char>,
    i: int,
    k: int,
    j: int,
)
    requires
        0 <= j < k <= sessions[i].windows@.len(),
        window_matches(query_of(filter_query), sessions[i].windows@[j]),
    ensures
        window_rows(sessions, filter_query, i, k).contains(
            TreeRow { session_index: i as usize, window_index: Some(j as usize) },
        ),
    decreases k,
{
    let row = TreeRow { session_index: i as usize, window_index: Some(j as usize) };
    let prev = window_rows(sessions, filter_query, i, k - 1);
    let all = window_rows(sessions, filter_query, i, k);
    if j == k - 1 {
        assert(all[prev.len() as int] == row);
    } else {
        lemma_matching_window_row(sessions, filter_query, i, k - 1, j);
        let p = choose|p: int| 0 <= p < prev.len() && prev[p] == row;
        assert(all[p] == row);
    }
}

/// A window whose lowercased name or index contains the lowercased, trimmed filter is
/// shown, and so is its session.
pub proof fn lemma_window_match_shown(st: State, i: int, j: int)
    requires
        0 <= i < st.sessions@.len(),
        0 <= j < st.sessions@[i].windows@.len(),
        filter_active_of(st.filter_query@),
        has_substring(
            lowercase_of(st.sessions@[i].windows@[j].name@),
            lowercase_of(trim(st.filter_query@)),
        ) || has_substring(
            lowercase_of(st.sessions@[i].windows@[j].index@),
            lowercase_of(trim(st.filter_query@)),
        ),
    ensures
        st.rows().contains(session_row(i)),
        st.rows().contains(TreeRow { session_index: i as usize, window_index: Some(j as usize) }),
{
    let sessions = st.sessions@;
    let q = st.filter_query@;
    let n = sessions.len() as int;
    let s = sessions[i];
    assert(window_matches(query_of(q), s.windows@[j]));
    assert(session_matches(query_of(q), s));
    let own = session_rows(sessions, st.expanded(), q, i);
    let wr = window_rows(sessions, q, i, s.windows@.len() as int);
    assert(own == seq![session_row(i)] + wr);
    assert(own[0] == session_row(i));
    lemma_session_rows_in_rows(sessions, st.expanded(), q, n, i, session_row(i));
    lemma_matching_window_row(sessions, q, i, s.windows@.len() as int, j);
    let row = TreeRow { session_index: i as usize, window_index: Some(j as usize) };
    let p = choose|p: int| 0 <= p < wr.len() && wr[p] == row;
    assert(own[1 + p] == row);
    lemma_session_rows_in_rows(sessions, st.expanded(), q, n, i, row);
}

/// Cycling the windows of the selected session, when it is expanded and has windows,
/// selects the next window, and the first after the last (or when none was selected).
pub proof fn lemma_select_cycles(st: State)
    requires
        st.wf(),
        st.selected_index() is Some,
        st.expanded().contains(st.sessions@[st.selected_index()->0].name@),
        st.sessions@[st.selected_index()->0].windows@.len() > 0,
    ensures
        ({
            let i = st.selected_index()->0;
            let n = st.sessions@[i].windows@.len();
            let after = st.cycled_window();
            &&& after.selected_session == st.selected_session
            &&& after.selected_window == Some(
                match st.selected_window {
                    None => 0usize,
                    Some(w) => if w + 1 < n {
                        (w + 1) as usize
                    } else {
                        0usize
                    },
                },
            )
        }),
{
    let i = st.selected_index()->0;
    let n = st.sessions@[i].windows@.len() as int;
    if let Some(w) = st.selected_window {
        assert(w < n);
        if w + 1 < n {
            vstd::arithmetic::div_mod::lemma_small_mod((w + 1) as nat, n as nat);
        } else {
            vstd::arithmetic::div_mod::lemma_mod_self_0(n);
        }
    }
}

/// Collapsing takes exactly the selected session out of the expanded ones: every other
/// session stays expanded or collapsed as it was, and the selection moves to the
/// selected session itself.
pub proof fn lemma_collapse_only_selected(before: State, after: State, name: Seq<char>)
    requires
        State::collapsed_from(before, after),
    ensures
        match before.selected_index() {
            None => after == before,
            Some(i) => {
                &&& !after.expanded().contains(before.sessions@[i].name@)
                &&& (name != before.sessions@[i].name@ ==> (after.expanded().contains(name)
                    <==> before.expanded().contains(name)))
                &&& after.selected_session == before.selected_session
                &&& after.selected_window is None
                &&& after.sessions == before.sessions
            },
        },
{
}

/// Expanding adds exactly the selected session to the expanded ones.
pub proof fn lemma_expand_only_selected(before: State, after: State, name: Seq<char>)
    requires
        State::expanded_from(before, after),
    ensures
        match before.selected_index() {
            None => after == before,
            Some(i) => {
                &&& after.expanded().contains(before.sessions@[i].name@)
                &&& (name != before.sessions@[i].name@ ==> (after.expanded().contains(name)
                    <==> before.expanded().contains(name)))
                &&& after.selected_session == before.selected_session
                &&& after.sessions == before.sessions
            },
        },
{
}

/// Toggling flips exactly the selected session between expanded and collapsed.
pub proof fn lemma_toggle_only_selected(before: State, after: State, name: Seq<char>)
    requires
        State::toggled_from(before, after),
    ensures
        match before.selected_index() {
            None => after == before,
            Some(i) => {
                &&& (after.expanded().contains(before.sessions@[i].name@)
                    <==> !before.expanded().contains(before.sessions@[i].name@))
                &&& (name != before.sessions@[i].name@ ==> (after.expanded().contains(name)
                    <==> before.expanded().contains(name)))
                &&& after.selected_session == before.selected_session
                &&& after.sessions == before.sessions
            },
        },
{
}

/// Cycling the focus three times from the tree, the details or the help returns to it.
pub proof fn lemma_focus_cycle(focus: FocusRegion)
    requires
        focus != FocusRegion::Modal,
    ensures
        State::next_focus(State::next_focus(State::next_focus(focus))) == focus,
{
}

// ---------------------------------------------------------------------------
// Operations on a list of names
// ---------------------------------------------------------------------------
/// Whether `name` is among `names`.
pub fn names_contain(names: &Vec<String>, name: &String) -> (r: bool)
    ensures
        r == name_set(names@).contains(name@),
{
    let mut i: usize = 0;
    while i < names.len()
        invariant
            i <= names.len(),
            forall|j: int| 0 <= j < i ==> (#[trigger] names@[j])@ != name@,
        decreases names.len() - i,
    {
        if names[i] == *name {
            assert(names@[i as int]@ == name@);
            return true;
        }
        i += 1;
    }
    false
}

fn names_insert(names: &mut Vec<String>, name: String)
    ensures
        name_set(final(names)@) == name_set(old(names)@).insert(name@),
{
    if !names_contain(names, &name) {
        let ghost old_names = names@;
        let ghost n = name@;
        names.push(name);
        proof {
            assert forall|m: Seq<char>| name_set(names@).contains(m) implies name_set(
                old_names,
            ).insert(n).contains(m) by {
                let i = choose|i: int| 0 <= i < names@.len() && #[trigger] names@[i]@ == m;
                if i < old_names.len() {
                    assert(old_names[i] == names@[i]);
                }
            }
            assert forall|m: Seq<char>| name_set(old_names).insert(n).contains(m) implies name_set(
                names@,
            ).contains(m) by {
                if m == n {
                    assert(names@[old_names.len() as int]@ == m);
                } else {
                    let i = choose|i: int| 0 <= i < old_names.len() && #[trigger] old_names[i]@ == m;
                    assert(names@[i] == old_names[i]);
                }
            }
            assert(name_set(names@) =~= name_set(old_names).insert(n));
        }
    }
}

fn names_remove(names: &mut Vec<String>, name: &String)
    ensures
        name_set(final(names)@) == name_set(old(names)@).remove(name@),
{
    let mut kept: Vec<String> = Vec::new();
    let mut i: usize = 0;
    while i < names.len()
        invariant
            i <= names.len(),
            forall|m: Seq<char>|
                name_set(kept@).contains(m) <==> (m != name@ && exists|j: int|
                    0 <= j < i && #[trigger] names@[j]@ == m),
        decreases names.len() - i,
    {
        let ghost before = kept@;
        if !(names[i] == *name) {
            kept.push(names[i].clone());
            proof {
                assert forall|m: Seq<char>| name_set(kept@).contains(m) <==> (m != name@ && exists|
                    j: int,
                | 0 <= j < i + 1 && #[trigger] names@[j]@ == m) by {
                    if name_set(kept@).contains(m) {
                        let k = choose|k: int| 0 <= k < kept@.len() && #[trigger] kept@[k]@ == m;
                        if k < before.len() {
                            assert(before[k] == kept@[k]);
                            assert(name_set(before).contains(m));
                        } else {
                            assert(names@[i as int]@ == m);
                        }
                    }
                    if m != name@ && exists|j: int| 0 <= j < i + 1 && #[trigger] names@[j]@ == m {
                        let j = choose|j: int| 0 <= j < i + 1 && #[trigger] names@[j]@ == m;
                        if j < i {
                            assert(name_set(before).contains(m));
                            let k = choose|k: int| 0 <= k < before.len() && #[trigger] before[k]@ == m;
                            assert(kept@[k] == before[k]);
                        } else {
                            assert(kept@[before.len() as int]@ == m);
                        }
                    }
                }
            }
        } else {
            proof {
                assert forall|m: Seq<char>| name_set(kept@).contains(m) <==> (m != name@ && exists|
                    j: int,
                | 0 <= j < i + 1 && #[trigger] names@[j]@ == m) by {
                    if m != name@ && exists|j: int| 0 <= j < i + 1 && #[trigger] names@[j]@ == m {
                        let j = choose|j: int| 0 <= j < i + 1 && #[trigger] names@[j]@ == m;
                        assert(j < i);
                    }
                }
            }
        }
        i += 1;
    }
    proof {
        assert(name_set(kept@) =~= name_set(names@).remove(name@));
    }
    *names = kept;
}

// ---------------------------------------------------------------------------
// Searches
// ---------------------------------------------------------------------------
fn position_of_session(sessions: &Vec<Session>, name: &str) -> (r: usize)
    ensures
        r == find_session(sessions@, name@),
        r <= sessions.len(),
{
    let target = String::from_str(name);
    let mut i: usize = 0;
    while i < sessions.len()
        invariant
            i <= sessions.len(),
            target@ == name@,
            forall|j: int| 0 <= j < i ==> (#[trigger] sessions@[j]).name@ != name@,
        decreases sessions.len() - i,
    {
        if sessions[i].name == target {
            proof {
                lemma_find_session_at(sessions@, name@, i as int);
            }
            return i;
        }
        i += 1;
    }
    proof {
        lemma_find_session_at(sessions@, name@, i as int);
    }
    i
}

fn position_of_window(windows: &Vec<Window>, index: &str) -> (r: usize)
    ensures
        r == find_window(windows@, index@),
        r <= windows.len(),
{
    let target = String::from_str(index);
    let mut i: usize = 0;
    while i < windows.len()
        invariant
            i <= windows.len(),
            target@ == index@,
            forall|j: int| 0 <= j < i ==> (#[trigger] windows@[j]).index@ != index@,
        decreases windows.len() - i,
    {
        if windows[i].index == target {
            proof {
                lemma_find_window_at(windows@, index@, i as int);
            }
            return i;
        }
        i += 1;
    }
    proof {
        lemma_find_window_at(windows@, index@, i as int);
    }
    i
}

fn clone_selection(s: &TreeSelection) -> (r: TreeSelection)
    ensures
        r == *s,
{
    match s {
        TreeSelection::Session { name } => TreeSelection::Session { name: name.clone() },
        TreeSelection::Window { session_name, window_index } => TreeSelection::Window {
            session_name: session_name.clone(),
            window_index: window_index.clone(),
        },
    }
}

// ---------------------------------------------------------------------------
// Filtering
// ---------------------------------------------------------------------------
/// The query of a filter: its text trimmed and, when not empty, lowercased.
pub fn filter_query_chars(filter_query: &String) -> (r: Vec<char>)
    ensures
        r@ == query_of(filter_query@),
{
    let t = trimmed_string(&chars_of(filter_query.as_str()));
    if t.as_str().is_empty() {
        return Vec::new();
    }
    let l = to_lowercase(t.as_str());
    chars_of(l.as_str())
}

/// Whether a window matches the query.
pub fn window_matches_query(query: &Vec<char>, window: &Window) -> (r: bool)
    ensures
        r == window_matches(query@, *window),
{
    if query.len() == 0 {
        return true;
    }
    let name = chars_of(to_lowercase(window.name.as_str()).as_str());
    if contains_chars(&name, query) {
        return true;
    }
    let index = chars_of(to_lowercase(window.index.as_str()).as_str());
    contains_chars(&index, query)
}

/// Whether a session matches the query.
pub fn session_matches_query(query: &Vec<char>, session: &Session) -> (r: bool)
    ensures
        r == session_matches(query@, *session),
{
    if query.len() == 0 {
        return true;
    }
    let name = chars_of(to_lowercase(session.name.as_str()).as_str());
    if contains_chars(&name, query) {
        return true;
    }
    let mut j: usize = 0;
    while j < session.windows.len()
        invariant
            j <= session.windows.len(),
            forall|k: int| 0 <= k < j ==> !window_matches(query@, #[trigger] session.windows@[k]),
        decreases session.windows.len() - j,
    {
        if window_matches_query(query, &session.windows[j]) {
            return true;
        }
        j += 1;
    }
    false
}

// ---------------------------------------------------------------------------
// The state's operations
// ---------------------------------------------------------------------------
impl State {
    /// The state of a dashboard that has just started: the tree focused, no sessions,
    /// nothing selected, expanded or filtered, no status, dialog or preview.
    pub open spec fn initial(self) -> bool {
        &&& self.focus == FocusRegion::Tree
        &&& self.sessions@.len() == 0
        &&& self.selected_session is None
        &&& self.selected_window is None
        &&& self.selection is None
        &&& self.expanded_sessions@.len() == 0
        &&& self.status is None
        &&& self.modal is None
        &&& self.preview@ == Seq::<char>::empty()
        &&& !self.preview_is_error
        &&& !self.filter_mode
        &&& self.filter_query@ == Seq::<char>::empty()
    }
}

impl Default for State {
    fn default() -> (r: Self)
        ensures
            r.initial(),
            r.wf(),
    {
        State {
            focus: FocusRegion::Tree,
            sessions: Vec::new(),
            selected_session: None,
            selected_window: None,
            selection: None,
            expanded_sessions: Vec::new(),
            status: None,
            modal: None,
            preview: String::new(),
            preview_is_error: false,
            filter_mode: false,
            filter_query: String::new(),
        }
    }
}

impl State {
    /// Whether `name` is expanded.
    fn is_expanded(&self, name: &String) -> (r: bool)
        ensures
            r == self.expanded().contains(name@),
    {
        names_contain(&self.expanded_sessions, name)
    }

    /// Brings the window selection and the selection by name in line with the selected
    /// session.
    pub fn sync_selection(&mut self)
        ensures
            *final(self) == old(self).synced(),
    {
        let i = match self.selected_session {
            None => {
                self.selection = None;
                return;
            },
            Some(i) => i,
        };
        if i >= self.sessions.len() {
            self.selection = None;
            return;
        }
        let expanded = self.is_expanded(&self.sessions[i].name);
        if !expanded {
            self.selected_window = None;
        }
        let count = self.sessions[i].windows.len();
        if count == 0 {
            self.selected_window = None;
            self.selection = Some(TreeSelection::Session { name: self.sessions[i].name.clone() });
            return;
        }
        if let Some(w) = self.selected_window {
            if w < count {
                self.selection = Some(
                    TreeSelection::Window {
                        session_name: self.sessions[i].name.clone(),
                        window_index: self.sessions[i].windows[w].index.clone(),
                    },
                );
                return;
            }
            self.selected_window = None;
        }
        self.selection = Some(TreeSelection::Session { name: self.sessions[i].name.clone() });
    }

    fn apply_row_selection(&mut self, row: &TreeRow)
        ensures
            *final(self) == old(self).with_row(*row),
    {
        self.selected_session = Some(row.session_index);
        self.selected_window = row.window_index;
        self.sync_selection();
    }

    /// Replaces the sessions. Expanded sessions that still exist stay expanded; the
    /// selection follows what was selected, by name, else goes to the first session.
    pub fn set_sessions(&mut self, sessions: Vec<Session>)
        ensures
            final(self).expanded() == kept_names(old(self).expanded(), sessions@),
            *final(self) == State::replaced(*old(self), sessions, final(self).expanded_sessions),
            final(self).wf(),
    {
        let previous_selection = match &self.selection {
            Some(sel) => Some(clone_selection(sel)),
            None => None,
        };
        let ghost previous_expanded = self.expanded();
        let mut kept: Vec<String> = Vec::new();
        let mut i: usize = 0;
        while i < sessions.len()
            invariant
                i <= sessions.len(),
                previous_expanded == self.expanded(),
                forall|m: Seq<char>|
                    #[trigger] name_set(kept@).contains(m) <==> (previous_expanded.contains(m)
                        && exists|j: int| 0 <= j < i && #[trigger] sessions@[j].name@ == m),
            decreases sessions.len() - i,
        {
            let ghost before = name_set(kept@);
            let ghost n = sessions@[i as int].name@;
            let e = self.is_expanded(&sessions[i].name);
            if e {
                names_insert(&mut kept, sessions[i].name.clone());
            }
            proof {
                assert(name_set(kept@) == if e {
                    before.insert(n)
                } else {
                    before
                });
                assert forall|m: Seq<char>| name_set(kept@).contains(m) implies (
                previous_expanded.contains(m) && exists|j: int|
                    0 <= j < i + 1 && #[trigger] sessions@[j].name@ == m) by {
                    if m == n {
                        assert(sessions@[i as int].name@ == m);
                    } else {
                        assert(before.contains(m));
                        let j = choose|j: int| 0 <= j < i && #[trigger] sessions@[j].name@ == m;
                        assert(0 <= j < i + 1 && sessions@[j].name@ == m);
                    }
                }
                assert forall|m: Seq<char>|
                    (previous_expanded.contains(m) && exists|j: int|
                        0 <= j < i + 1 && #[trigger] sessions@[j].name@ == m) implies name_set(
                    kept@,
                ).contains(m) by {
                    let j = choose|j: int| 0 <= j < i + 1 && #[trigger] sessions@[j].name@ == m;
                    if j < i {
                        assert(before.contains(m));
                    } else {
                        assert(m == n);
                    }
                }
            }
            i += 1;
        }
        proof {
            assert(name_set(kept@) =~= kept_names(previous_expanded, sessions@));
        }
        self.sessions = sessions;
        self.expanded_sessions = kept;
        if self.sessions.len() == 0 {
            self.select_indices(None, None);
            proof {
                lemma_select_synced_wf(*old(self), None, None);
            }
            return;
        }
        let ghost mid = *self;
        if !self.restore_selection(previous_selection) {
            self.select_indices(Some(0), None);
        }
        proof {
            let t = restored_target(mid.sessions@, old(self).selection);
            lemma_sizes_fit(mid);
            lemma_restored_target_bounds(mid.sessions@, old(self).selection);
            lemma_select_synced_wf(mid, t.0, t.1);
        }
    }

    /// Selects what `previous` names, when it is still there; reports whether it was.
    fn restore_selection(&mut self, previous: Option<TreeSelection>) -> (restored: bool)
        requires
            old(self).sessions@.len() > 0,
        ensures
            restored == match previous {
                None => false,
                Some(TreeSelection::Session { name }) => find_session(old(self).sessions@, name@)
                    < old(self).sessions@.len(),
                Some(TreeSelection::Window { session_name, .. }) => find_session(
                    old(self).sessions@,
                    session_name@,
                ) < old(self).sessions@.len(),
            },
            restored ==> *final(self) == old(self).select_synced(
                restored_target(old(self).sessions@, previous).0,
                restored_target(old(self).sessions@, previous).1,
            ),
            !restored ==> *final(self) == *old(self) && restored_target(old(self).sessions@, previous)
                == (Some(0usize), None::<usize>),
    {
        match previous {
            None => false,
            Some(TreeSelection::Window { session_name, window_index }) => {
                let i = position_of_session(&self.sessions, session_name.as_str());
                if i == self.sessions.len() {
                    return false;
                }
                let p = position_of_window(&self.sessions[i].windows, window_index.as_str());
                if p == self.sessions[i].windows.len() {
                    self.select_indices(Some(i), None);
                    return true;
                }
                self.select_indices(Some(i), Some(p));
                true
            },
            Some(TreeSelection::Session { name }) => {
                let i = position_of_session(&self.sessions, name.as_str());
                if i == self.sessions.len() {
                    return false;
                }
                self.select_indices(Some(i), None);
                true
            },
        }
    }

    /// Moves the selection one visible row up, wrapping to the last row.
    pub fn move_up(&mut self)
        ensures
            *final(self) == old(self).moved_up(),
            old(self).wf() ==> final(self).wf(),
    {
        let rows = self.tree_rows();
        let current = match self.selected_row_index(&rows) {
            Some(c) => c,
            None => return ,
        };
        let next = if current == 0 {
            rows.len() - 1
        } else {
            current - 1
        };
        proof {
            lemma_with_row_wf(*old(self), next as int);
        }
        self.apply_row_selection(&rows[next]);
    }

    /// Moves the selection one visible row down, wrapping to the first row.
    pub fn move_down(&mut self)
        ensures
            *final(self) == old(self).moved_down(),
            old(self).wf() ==> final(self).wf(),
    {
        let rows = self.tree_rows();
        let current = match self.selected_row_index(&rows) {
            Some(c) => c,
            None => return ,
        };
        let next = if current + 1 >= rows.len() {
            0
        } else {
            current + 1
        };
        proof {
            lemma_with_row_wf(*old(self), next as int);
        }
        self.apply_row_selection(&rows[next]);
    }

    /// Selects the next window of the selected session, wrapping to the first.
    pub fn select(&mut self)
        ensures
            *final(self) == old(self).cycled_window(),
            old(self).wf() ==> final(self).wf(),
    {
        let i = match self.selected_session {
            Some(i) => i,
            None => return ,
        };
        if i >= self.sessions.len() {
            return ;
        }
        let n = self.sessions[i].windows.len();
        if n == 0 {
            return ;
        }
        let next = match self.selected_window {
            None => 0,
            Some(w) => {
                let r = (w % n + 1) % n;
                proof {
                    lemma_next_mod(w as int, n as int);
                }
                r
            },
        };
        proof {
            lemma_select_synced_wf(*old(self), Some(i), Some(next));
        }
        self.select_indices(Some(i), Some(next));
    }

    /// Collapses the selected session.
    pub fn back(&mut self)
        ensures
            State::collapsed_from(*old(self), *final(self)),
            old(self).wf() ==> final(self).wf(),
    {
        self.collapse_selected_session();
    }

    /// Expands the selected session when it is collapsed, and collapses it (leaving the
    /// session itself selected) when it is expanded.
    pub fn toggle_expand(&mut self)
        ensures
            State::toggled_from(*old(self), *final(self)),
            old(self).wf() ==> final(self).wf(),
    {
        let i = match self.selected_session {
            Some(i) => i,
            None => return ,
        };
        if i >= self.sessions.len() {
            return ;
        }
        let name = self.sessions[i].name.clone();
        if self.is_expanded(&name) {
            names_remove(&mut self.expanded_sessions, &name);
            self.selected_window = None;
        } else {
            names_insert(&mut self.expanded_sessions, name);
        }
        let ghost mid = *self;
        self.sync_selection();
        proof {
            lemma_select_synced_wf(mid, mid.selected_session, mid.selected_window);
        }
    }

    /// Expands the selected session.
    pub fn expand_selected_session(&mut self)
        ensures
            State::expanded_from(*old(self), *final(self)),
            old(self).wf() ==> final(self).wf(),
    {
        let i = match self.selected_session {
            Some(i) => i,
            None => return ,
        };
        if i >= self.sessions.len() {
            return ;
        }
        let name = self.sessions[i].name.clone();
        names_insert(&mut self.expanded_sessions, name);
        let ghost mid = *self;
        self.sync_selection();
        proof {
            lemma_select_synced_wf(mid, mid.selected_session, mid.selected_window);
        }
    }

    /// Collapses the selected session and selects the session itself.
    pub fn collapse_selected_session(&mut self)
        ensures
            State::collapsed_from(*old(self), *final(self)),
            old(self).wf() ==> final(self).wf(),
    {
        let i = match self.selected_session {
            Some(i) => i,
            None => return ,
        };
        if i >= self.sessions.len() {
            return ;
        }
        let name = self.sessions[i].name.clone();
        names_remove(&mut self.expanded_sessions, &name);
        self.selected_window = None;
        let ghost mid = *self;
        self.sync_selection();
        proof {
            lemma_select_synced_wf(mid, mid.selected_session, None);
        }
    }

    /// Moves the focus to the next region: tree, details, help, and back to the tree.
    pub fn cycle_focus(&mut self)
        ensures
            *final(self) == (State { focus: State::next_focus(old(self).focus), ..*old(self) }),
            old(self).wf() ==> final(self).wf(),
    {
        self.focus = match self.focus {
            FocusRegion::Tree => FocusRegion::Details,
            FocusRegion::Details => FocusRegion::Help,
            FocusRegion::Help | FocusRegion::Modal => FocusRegion::Tree,
        };
    }

    /// The selected session.
    pub fn selected_session_ref(&self) -> (r: Option<&Session>)
        ensures
            match self.selected_index() {
                Some(i) => r matches Some(s) && *s == self.sessions@[i],
                None => r is None,
            },
    {
        match self.selected_session {
            Some(i) => if i < self.sessions.len() {
                Some(&self.sessions[i])
            } else {
                None
            },
            None => None,
        }
    }

    /// The selected window.
    pub fn selected_window_ref(&self) -> (r: Option<&Window>)
        ensures
            match self.selected_window_position() {
                Some((i, w)) => r matches Some(x) && *x == self.sessions@[i].windows@[w],
                None => r is None,
            },
    {
        let session = match self.selected_session_ref() {
            Some(s) => s,
            None => return None,
        };
        let index = match self.selected_window {
            Some(w) => w,
            None => return None,
        };
        if index < session.windows.len() {
            Some(&session.windows[index])
        } else {
            None
        }
    }

    /// The name of the selected session.
    pub fn selected_session_name(&self) -> (r: Option<&str>)
        ensures
            match self.selected_index() {
                Some(i) => r matches Some(s) && s@ == self.sessions@[i].name@,
                None => r is None,
            },
    {
        match self.selected_session_ref() {
            Some(s) => Some(s.name.as_str()),
            None => None,
        }
    }

    /// The index of the selected window.
    pub fn selected_window_index(&self) -> (r: Option<&str>)
        ensures
            match self.selected_window_position() {
                Some((i, w)) => r matches Some(s) && s@ == self.sessions@[i].windows@[w].index@,
                None => r is None,
            },
    {
        match self.selected_window_ref() {
            Some(w) => Some(w.index.as_str()),
            None => None,
        }
    }

    /// Selects the first session named `session_name`, if there is one.
    pub fn select_session_by_name(&mut self, session_name: &str)
        ensures
            *final(self) == old(self).selected_by_name(session_name@),
            old(self).wf() ==> final(self).wf(),
    {
        let i = position_of_session(&self.sessions, session_name);
        if i == self.sessions.len() {
            return ;
        }
        proof {
            lemma_select_synced_wf(*old(self), Some(i), None);
        }
        self.select_indices(Some(i), None);
    }

    /// Selects the window with index `window_index` of the first session named
    /// `session_name`, if there is one.
    pub fn select_window_by_identity(&mut self, session_name: &str, window_index: &str)
        ensures
            *final(self) == old(self).selected_by_identity(session_name@, window_index@),
            old(self).wf() ==> final(self).wf(),
    {
        let i = position_of_session(&self.sessions, session_name);
        if i == self.sessions.len() {
            return ;
        }
        let p = position_of_window(&self.sessions[i].windows, window_index);
        if p == self.sessions[i].windows.len() {
            return ;
        }
        proof {
            lemma_select_synced_wf(*old(self), Some(i), Some(p));
        }
        self.select_indices(Some(i), Some(p));
    }

    /// The name of the focused region.
    pub fn focus_label(&self) -> (r: &'static str)
        ensures
            r@ == State::focus_label_of(self.focus),
    {
        match self.focus {
            FocusRegion::Tree => "tree",
            FocusRegion::Details => "details",
            FocusRegion::Help => "help",
            FocusRegion::Modal => "modal",
        }
    }

    /// Enters filter mode.
    pub fn start_filter(&mut self)
        ensures
            *final(self) == (State { filter_mode: true, ..*old(self) }),
            old(self).wf() ==> final(self).wf(),
    {
        self.filter_mode = true;
    }

    /// Leaves filter mode.
    pub fn stop_filter(&mut self)
        ensures
            *final(self) == (State { filter_mode: false, ..*old(self) }),
            old(self).wf() ==> final(self).wf(),
    {
        self.filter_mode = false;
    }

    /// Empties the filter.
    pub fn clear_filter(&mut self)
        ensures
            final(self).filter_query@ == Seq::<char>::empty(),
            *final(self) == old(self).with_filter(final(self).filter_query).normalized(),
            old(self).wf() ==> final(self).wf(),
    {
        self.filter_query = String::new();
        let ghost mid = *self;
        self.normalize_selection_after_filter_change();
        proof {
            if old(self).wf() {
                lemma_normalized_wf(mid);
            }
        }
    }

    /// Adds a character to the filter.
    pub fn append_filter_char(&mut self, character: char)
        ensures
            final(self).filter_query@ == old(self).filter_query@.push(character),
            *final(self) == old(self).with_filter(final(self).filter_query).normalized(),
            old(self).wf() ==> final(self).wf(),
    {
        push_char(&mut self.filter_query, character);
        let ghost mid = *self;
        self.normalize_selection_after_filter_change();
        proof {
            if old(self).wf() {
                lemma_normalized_wf(mid);
            }
        }
    }

    /// Removes the last character of the filter, if any.
    pub fn pop_filter_char(&mut self)
        ensures
            final(self).filter_query@ == if old(self).filter_query@.len() == 0 {
                old(self).filter_query@
            } else {
                old(self).filter_query@.drop_last()
            },
            *final(self) == old(self).with_filter(final(self).filter_query).normalized(),
            old(self).wf() ==> final(self).wf(),
    {
        pop_char(&mut self.filter_query);
        let ghost mid = *self;
        self.normalize_selection_after_filter_change();
        proof {
            if old(self).wf() {
                lemma_normalized_wf(mid);
            }
        }
    }

    /// Whether the filter holds more than whitespace.
    pub fn is_filter_active(&self) -> (r: bool)
        ensures
            r == filter_active_of(self.filter_query@),
    {
        !is_blank(&chars_of(self.filter_query.as_str()))
    }

    /// The visible rows of the tree, in display order.
    pub fn tree_rows(&self) -> (rows: Vec<TreeRow>)
        ensures
            rows@ == self.rows(),
            !filter_active_of(self.filter_query@) ==> rows@ == plain_rows(
                self.sessions@,
                self.expanded(),
                self.sessions@.len() as int,
            ),
    {
        proof {
            if !filter_active_of(self.filter_query@) {
                lemma_unfiltered_tree(*self);
            }
        }
        let query = filter_query_chars(&self.filter_query);
        let show_windows = self.is_filter_active();
        let mut rows: Vec<TreeRow> = Vec::new();
        let mut i: usize = 0;
        while i < self.sessions.len()
            invariant
                i <= self.sessions.len(),
                query@ == query_of(self.filter_query@),
                show_windows == filter_active_of(self.filter_query@),
                rows@ == rows_upto(self.sessions@, self.expanded(), self.filter_query@, i as int),
            decreases self.sessions.len() - i,
        {
            let ghost before = rows@;
            let session = &self.sessions[i];
            if session_matches_query(&query, session) {
                rows.push(TreeRow { session_index: i, window_index: None });
                if show_windows || self.is_expanded(&session.name) {
                    let mut j: usize = 0;
                    while j < session.windows.len()
                        invariant
                            i < self.sessions.len(),
                            session == self.sessions@[i as int],
                            j <= session.windows.len(),
                            query@ == query_of(self.filter_query@),
                            show_windows == filter_active_of(self.filter_query@),
                            rows@ == before + seq![TreeRow { session_index: i, window_index: None }]
                                + window_rows(self.sessions@, self.filter_query@, i as int, j as int),
                        decreases session.windows.len() - j,
                    {
                        if !show_windows || window_matches_query(&query, &session.windows[j]) {
                            rows.push(TreeRow { session_index: i, window_index: Some(j) });
                        }
                        j += 1;
                    }
                    assert(rows@ =~= before + session_rows(
                        self.sessions@,
                        self.expanded(),
                        self.filter_query@,
                        i as int,
                    ));
                } else {
                    assert(rows@ =~= before + session_rows(
                        self.sessions@,
                        self.expanded(),
                        self.filter_query@,
                        i as int,
                    ));
                }
            } else {
                assert(rows@ =~= before + session_rows(
                    self.sessions@,
                    self.expanded(),
                    self.filter_query@,
                    i as int,
                ));
            }
            i += 1;
        }
        rows
    }

    /// The position of the selected row in `rows`, if it is there.
    fn selected_row_index(&self, rows: &Vec<TreeRow>) -> (r: Option<usize>)
        ensures
            match r {
                Some(k) => k == find_row(rows@, self.selected_session, self.selected_window) && k
                    < rows.len(),
                None => find_row(rows@, self.selected_session, self.selected_window) == rows.len(),
            },
    {
        let mut k: usize = 0;
        while k < rows.len()
            invariant
                k <= rows.len(),
                forall|j: int|
                    0 <= j < k ==> !row_is(#[trigger] rows@[j], self.selected_session, self.selected_window),
            decreases rows.len() - k,
        {
            let row = rows[k];
            let same_session = match self.selected_session {
                Some(s) => s == row.session_index,
                None => false,
            };
            let same_window = match (self.selected_window, row.window_index) {
                (Some(a), Some(b)) => a == b,
                (None, None) => true,
                _ => false,
            };
            if same_session && same_window {
                proof {
                    lemma_find_row_at(rows@, self.selected_session, self.selected_window, k as int);
                }
                return Some(k);
            }
            k += 1;
        }
        proof {
            lemma_find_row_at(rows@, self.selected_session, self.selected_window, k as int);
        }
        None
    }

    fn normalize_selection_after_filter_change(&mut self)
        ensures
            *final(self) == old(self).normalized(),
    {
        let rows = self.tree_rows();
        if rows.len() == 0 {
            self.selected_session = None;
            self.selected_window = None;
            self.selection = None;
            return;
        }
        if self.selected_row_index(&rows).is_none() {
            self.apply_row_selection(&rows[0]);
            return;
        }
        self.sync_selection();
    }

    /// Selects session `ss` and window `sw`, bringing the rest in line.
    fn select_indices(&mut self, ss: Option<usize>, sw: Option<usize>)
        ensures
            *final(self) == old(self).select_synced(ss, sw),
    {
        self.selected_session = ss;
        self.selected_window = sw;
        self.sync_selection();
    }
}

} // verus!
