//! The text of the dashboard's panels: the session tree, the details, the help and
//! status line, and the dialog. Drawing them is left to the caller.
use vstd::prelude::*;

use crate::app::state::{
    filter_active_of, filter_query_chars, lemma_sizes_fit, query_of, rows_upto, session_matches,
    session_matches_query, session_rows, window_matches, window_matches_query, window_rows,
    FocusRegion, Modal, State, TreeRow,
};
use crate::text::{concat, concat3};

verus! {

/// A line of the session tree, and whether it is the selected one.
#[derive(Debug)]
pub struct TreeLine {
    pub text: String,
    pub selected: bool,
}

/// A tree line as plain values.
pub open spec fn line_view(l: TreeLine) -> (Seq<char>, bool) {
    (l.text@, l.selected)
}

/// Tree lines as plain values.
pub open spec fn lines_view(lines: Seq<TreeLine>) -> Seq<(Seq<char>, bool)> {
    lines.map_values(|l: TreeLine| line_view(l))
}

/// Whether the tree shows a filter: its text is not blank.
pub open spec fn showing_filter(filter_query: Seq<char>) -> bool {
    filter_active_of(filter_query)
}

/// Whether session `i` shows its windows: a filter is shown, or it is expanded.
pub open spec fn shows_windows(st: State, i: int) -> bool {
    showing_filter(st.filter_query@) || st.expanded().contains(st.sessions@[i].name@)
}

/// The line of session `i`: `>` when it is selected itself, `[-]` when it shows its
/// windows, `[+]` when not, then its name.
pub open spec fn session_line(st: State, i: int) -> (Seq<char>, bool) {
    let selected = st.selected_session == Some(i as usize) && st.selected_window is None;
    (
        (if selected {
            ">"@
        } else {
            " "@
        }) + " "@ + (if shows_windows(st, i) {
            "[-]"@
        } else {
            "[+]"@
        }) + " "@ + st.sessions@[i].name@,
        selected,
    )
}

/// The line of window `j` of session `i`: `*` when it is selected, `-` when not, then
/// its index in brackets and its name.
pub open spec fn window_line(st: State, i: int, j: int) -> (Seq<char>, bool) {
    let selected = st.selected_session == Some(i as usize) && st.selected_window == Some(
        j as usize,
    );
    let w = st.sessions@[i].windows@[j];
    (
        "  "@ + (if selected {
            "*"@
        } else {
            "-"@
        }) + " ["@ + w.index@ + "] "@ + w.name@,
        selected,
    )
}

/// The lines of the first `k` windows of session `i` that match the filter.
pub open spec fn window_lines(st: State, i: int, k: int) -> Seq<(Seq<char>, bool)>
    decreases k,
{
    if k <= 0 {
        seq![]
    } else {
        window_lines(st, i, k - 1) + if window_matches(
            query_of(st.filter_query@),
            st.sessions@[i].windows@[k - 1],
        ) {
            seq![window_line(st, i, k - 1)]
        } else {
            seq![]
        }
    }
}

/// The lines of session `i`: none when it does not match the filter; else its line,
/// followed by its windows' lines when it shows them.
pub open spec fn session_lines(st: State, i: int) -> Seq<(Seq<char>, bool)> {
    if !session_matches(query_of(st.filter_query@), st.sessions@[i]) {
        seq![]
    } else {
        seq![session_line(st, i)] + if shows_windows(st, i) {
            window_lines(st, i, st.sessions@[i].windows@.len() as int)
        } else {
            seq![]
        }
    }
}

/// The lines of the first `n` sessions.
pub open spec fn lines_upto(st: State, n: int) -> Seq<(Seq<char>, bool)>
    decreases n,
{
    if n <= 0 {
        seq![]
    } else {
        lines_upto(st, n - 1) + session_lines(st, n - 1)
    }
}

/// The lines of the session tree: the search line and a blank line in filter mode;
/// then the sessions, or a line saying there are none.
pub open spec fn tree_text(st: State) -> Seq<(Seq<char>, bool)> {
    (if st.filter_mode {
        seq![("Search: "@ + st.filter_query@, false), (Seq::<char>::empty(), false)]
    } else {
        seq![]
    }) + if st.sessions@.len() == 0 {
        seq![("No active tmux sessions"@, false)]
    } else {
        lines_upto(st, st.sessions@.len() as int)
    }
}

/// The line drawn for a row of the tree.
pub open spec fn row_line(st: State, row: TreeRow) -> (Seq<char>, bool) {
    match row.window_index {
        None => session_line(st, row.session_index as int),
        Some(j) => window_line(st, row.session_index as int, j as int),
    }
}

/// The lines drawn for some rows of the tree, one each, in order.
pub open spec fn rows_lines(st: State, rows: Seq<TreeRow>) -> Seq<(Seq<char>, bool)> {
    rows.map_values(|r: TreeRow| row_line(st, r))
}

proof fn lemma_rows_lines_concat(st: State, a: Seq<TreeRow>, b: Seq<TreeRow>)
    ensures
        rows_lines(st, a + b) == rows_lines(st, a) + rows_lines(st, b),
{
    assert(rows_lines(st, a + b) =~= rows_lines(st, a) + rows_lines(st, b));
}

proof fn lemma_window_lines_follow_rows(st: State, i: int, k: int)
    requires
        0 <= i < st.sessions@.len(),
        0 <= k <= st.sessions@[i].windows@.len(),
        st.sizes_fit(),
    ensures
        window_lines(st, i, k) == rows_lines(
            st,
            window_rows(st.sessions@, st.filter_query@, i, k),
        ),
    decreases k,
{
    if k > 0 {
        lemma_window_lines_follow_rows(st, i, k - 1);
        let prev = window_rows(st.sessions@, st.filter_query@, i, k - 1);
        let w = st.sessions@[i].windows@[k - 1];
        let extra = if !filter_active_of(st.filter_query@) || window_matches(
            query_of(st.filter_query@),
            w,
        ) {
            seq![TreeRow { session_index: i as usize, window_index: Some((k - 1) as usize) }]
        } else {
            seq![]
        };
        lemma_rows_lines_concat(st, prev, extra);
        assert(rows_lines(st, extra) =~= if window_matches(query_of(st.filter_query@), w) {
            seq![window_line(st, i, k - 1)]
        } else {
            seq![]
        });
    }
}

proof fn lemma_lines_upto_follow_rows(st: State, n: int)
    requires
        0 <= n <= st.sessions@.len(),
        st.sizes_fit(),
    ensures
        lines_upto(st, n) == rows_lines(
            st,
            rows_upto(st.sessions@, st.expanded(), st.filter_query@, n),
        ),
    decreases n,
{
    if n > 0 {
        lemma_lines_upto_follow_rows(st, n - 1);
        let i = n - 1;
        let s = st.sessions@[i];
        let prev = rows_upto(st.sessions@, st.expanded(), st.filter_query@, i);
        let own = session_rows(st.sessions@, st.expanded(), st.filter_query@, i);
        lemma_rows_lines_concat(st, prev, own);
        if session_matches(query_of(st.filter_query@), s) {
            let head = seq![TreeRow { session_index: i as usize, window_index: None }];
            let tail = if filter_active_of(st.filter_query@) || st.expanded().contains(s.name@) {
                window_rows(st.sessions@, st.filter_query@, i, s.windows@.len() as int)
            } else {
                seq![]
            };
            lemma_rows_lines_concat(st, head, tail);
            assert(rows_lines(st, head) =~= seq![session_line(st, i)]);
            lemma_window_lines_follow_rows(st, i, s.windows@.len() as int);
            assert(rows_lines(st, seq![]) =~= Seq::<(Seq<char>, bool)>::empty());
        } else {
            assert(rows_lines(st, own) =~= Seq::<(Seq<char>, bool)>::empty());
        }
    }
}

/// The lines of the tree told by its rows: after the search lines in filter mode, the
/// line saying there are no sessions, or the line of each visible row, in order.
pub open spec fn text_of_rows(st: State) -> Seq<(Seq<char>, bool)> {
    (if st.filter_mode {
        seq![("Search: "@ + st.filter_query@, false), (Seq::<char>::empty(), false)]
    } else {
        seq![]
    }) + if st.sessions@.len() == 0 {
        seq![("No active tmux sessions"@, false)]
    } else {
        rows_lines(st, st.rows())
    }
}

/// The lines of the tree follow its rows one to one: after the search lines in filter
/// mode, either the line saying there are no sessions, or the line of each visible row,
/// in order.
pub proof fn lemma_lines_follow_rows(st: State)
    ensures
        tree_text(st) == text_of_rows(st),
{
    lemma_sizes_fit(st);
    lemma_lines_upto_follow_rows(st, st.sessions@.len() as int);
}

fn line(text: String, selected: bool) -> (r: TreeLine)
    ensures
        line_view(r) == (text@, selected),
{
    TreeLine { text, selected }
}

/// The line of session `i`.
fn session_line_exec(st: &State, i: usize, shows: bool) -> (r: TreeLine)
    requires
        i < st.sessions@.len(),
        shows == shows_windows(*st, i as int),
    ensures
        line_view(r) == session_line(*st, i as int),
{
    let selected = match (st.selected_session, st.selected_window) {
        (Some(s), None) => s == i,
        _ => false,
    };
    let marker = if selected {
        "> "
    } else {
        "  "
    };
    let fold = if shows {
        "[-] "
    } else {
        "[+] "
    };
    let text = concat3(marker, fold, st.sessions[i].name.as_str());
    proof {
        reveal_strlit("> ");
        reveal_strlit("  ");
        reveal_strlit(">");
        reveal_strlit(" ");
        reveal_strlit("[-] ");
        reveal_strlit("[+] ");
        reveal_strlit("[-]");
        reveal_strlit("[+]");
        assert(text@ == session_line(*st, i as int).0);
    }
    line(text, selected)
}

/// The line of window `j` of session `i`.
fn window_line_exec(st: &State, i: usize, j: usize) -> (r: TreeLine)
    requires
        i < st.sessions@.len(),
        j < st.sessions@[i as int].windows@.len(),
    ensures
        line_view(r) == window_line(*st, i as int, j as int),
{
    let selected = match (st.selected_session, st.selected_window) {
        (Some(s), Some(w)) => s == i && w == j,
        _ => false,
    };
    let marker = if selected {
        "  * ["
    } else {
        "  - ["
    };
    let w = &st.sessions[i].windows[j];
    let head = concat3(marker, w.index.as_str(), "] ");
    let text = concat(head.as_str(), w.name.as_str());
    proof {
        reveal_strlit("  * [");
        reveal_strlit("  - [");
        reveal_strlit("  ");
        reveal_strlit("*");
        reveal_strlit("-");
        reveal_strlit(" [");
        assert(text@ == window_line(*st, i as int, j as int).0);
    }
    line(text, selected)
}

/// The lines of the session tree.
pub fn tree_lines(st: &State) -> (r: Vec<TreeLine>)
    ensures
        lines_view(r@) == tree_text(*st),
        lines_view(r@) == text_of_rows(*st),
{
    proof {
        lemma_lines_follow_rows(*st);
    }
    let mut lines: Vec<TreeLine> = Vec::new();
    let query = filter_query_chars(&st.filter_query);
    let filtering = st.is_filter_active();
    if st.filter_mode {
        lines.push(line(concat("Search: ", st.filter_query.as_str()), false));
        lines.push(line(String::new(), false));
    }
    let ghost head = lines_view(lines@);
    assert(head =~= if st.filter_mode {
        seq![("Search: "@ + st.filter_query@, false), (Seq::<char>::empty(), false)]
    } else {
        seq![]
    });
    if st.sessions.len() == 0 {
        lines.push(line(String::from_str("No active tmux sessions"), false));
        assert(lines_view(lines@) =~= tree_text(*st));
        return lines;
    }
    let mut i: usize = 0;
    while i < st.sessions.len()
        invariant
            i <= st.sessions.len(),
            query@ == query_of(st.filter_query@),
            filtering == showing_filter(st.filter_query@),
            lines_view(lines@) == head + lines_upto(*st, i as int),
        decreases st.sessions.len() - i,
    {
        let ghost before = lines_view(lines@);
        let s = &st.sessions[i];
        if session_matches_query(&query, s) {
            let shows = filtering || crate::app::state::names_contain(&st.expanded_sessions, &s.name);
            let l = session_line_exec(st, i, shows);
            lines.push(l);
            assert(lines_view(lines@) =~= before.push(session_line(*st, i as int)));
            if shows {
                let mut j: usize = 0;
                while j < s.windows.len()
                    invariant
                        i < st.sessions.len(),
                        s == st.sessions@[i as int],
                        j <= s.windows.len(),
                        query@ == query_of(st.filter_query@),
                        shows == shows_windows(*st, i as int),
                        shows,
                        lines_view(lines@) == before + seq![
                            session_line(*st, i as int),
                        ] + window_lines(*st, i as int, j as int),
                    decreases s.windows.len() - j,
                {
                    let ghost b2 = lines_view(lines@);
                    if window_matches_query(&query, &s.windows[j]) {
                        let l = window_line_exec(st, i, j);
                        lines.push(l);
                        assert(lines_view(lines@) =~= b2.push(window_line(*st, i as int, j as int)));
                    } else {
                        assert(lines_view(lines@) =~= b2);
                    }
                    assert(lines_view(lines@) =~= before + seq![
                        session_line(*st, i as int),
                    ] + window_lines(*st, i as int, j + 1));
                    j += 1;
                }
            }
            assert(lines_view(lines@) =~= before + session_lines(
                *st,
                i as int,
            ));
        } else {
            assert(lines_view(lines@) =~= before + session_lines(
                *st,
                i as int,
            ));
        }
        i += 1;
    }
    lines
}

/// The title of the tree panel.
pub fn tree_title(st: &State) -> (r: &'static str)
    ensures
        r@ == if st.focus == FocusRegion::Tree {
            "Sessions (focus)"@
        } else {
            "Sessions"@
        },
{
    if st.focus == FocusRegion::Tree {
        "Sessions (focus)"
    } else {
        "Sessions"
    }
}

/// The text of the details panel: the status message, or a placeholder.
pub fn details_text(st: &State) -> (r: String)
    ensures
        r@ == match st.status {
            Some(s) => "Status: "@ + s.message@,
            None => "Selected item details and preview will render here"@,
        },
{
    match &st.status {
        Some(s) => concat("Status: ", s.message.as_str()),
        None => String::from_str("Selected item details and preview will render here"),
    }
}

/// The key reminder shown in the help panel.
pub fn help_text() -> (r: String)
    ensures
        r@ == "Nav: Tab focus  Up/Down sessions  Left collapse  Right expand  Enter cycle window\nCRUD: c create session  w create window  n rename  x close  a attach\nOther: Space toggle  r refresh  q quit"@,
{
    String::from_str(
        "Nav: Tab focus  Up/Down sessions  Left collapse  Right expand  Enter cycle window\nCRUD: c create session  w create window  n rename  x close  a attach\nOther: Space toggle  r refresh  q quit",
    )
}

/// The status line of the help panel, and whether it shows an error: the status
/// (marked `error` or `ok`) or `ready`, then the focused region.
pub fn help_status(st: &State) -> (r: (String, bool))
    ensures
        r.0@ == match st.status {
            Some(s) => "Status ("@ + (if s.is_error {
                "error"@
            } else {
                "ok"@
            }) + "): "@ + s.message@ + " | Focus: "@ + State::focus_label_of(st.focus),
            None => "Status: ready | Focus: "@ + State::focus_label_of(st.focus),
        },
        r.1 == (st.status matches Some(s) && s.is_error),
{
    let label = st.focus_label();
    match &st.status {
        Some(s) => {
            let level = if s.is_error {
                "error"
            } else {
                "ok"
            };
            let head = concat3("Status (", level, "): ");
            let middle = concat3(head.as_str(), s.message.as_str(), " | Focus: ");
            (concat(middle.as_str(), label), s.is_error)
        },
        None => (concat("Status: ready | Focus: ", label), false),
    }
}

/// The text of the open dialog, if any: an input dialog shows its title, the text
/// entered and how to submit or cancel; a confirmation its title and question.
pub fn modal_text(st: &State) -> (r: Option<String>)
    ensures
        match st.modal {
            None => r is None,
            Some(Modal::Input { title, value, .. }) => r matches Some(t) && t@ == title@
                + "\n\n  > "@ + value@ + "_\n\n[Enter] submit  [Esc] cancel"@,
            Some(Modal::Confirm { title, prompt, .. }) => r matches Some(t) && t@ == title@
                + "\n\n  "@ + prompt@,
        },
{
    match &st.modal {
        None => None,
        Some(Modal::Input { title, value, .. }) => {
            let head = concat3(title.as_str(), "\n\n  > ", value.as_str());
            Some(concat(head.as_str(), "_\n\n[Enter] submit  [Esc] cancel"))
        },
        Some(Modal::Confirm { title, prompt, .. }) => Some(concat3(title.as_str(), "\n\n  ", prompt.as_str())),
    }
}

} // verus!
