//! Reading what tmux prints: window lines, the listing of all windows of all sessions,
//! session names, pane ids and captured pane text.
use vstd::prelude::*;

use crate::text::{
    chars_of, concat, is_blank, is_whitespace, split_char, split_chars, splitn_char, splitn_chars, string_of, trim,
    trim_end, trim_end_string, trimmed_string,
};
use crate::tmux::session::{sessions_view, Session, SessionView, Window, WindowView};

verus! {

/// The character between the fields of a line that tmux prints for a format.
pub const FIELD_SEPARATOR: char = '\u{1f}';

/// The character between lines.
pub const LINE_SEPARATOR: char = '\n';

// ---------------------------------------------------------------------------
// Window lines
// ---------------------------------------------------------------------------
/// The window described by fields `index`, `name`, `layout`, `path`.
pub open spec fn window_of_fields(p: Seq<Seq<char>>) -> WindowView {
    WindowView { index: p[0], name: p[1], layout: p[2], active_pane_path: p[3], activity: 0 }
}

/// The message for a window line that does not have four fields.
pub open spec fn bad_window_message(line: Seq<char>) -> Seq<char> {
    "Failed to parse window string: "@ + line
}

/// A window line: its first four fields; an error when it has fewer.
pub open spec fn parse_window_line(line: Seq<char>) -> Result<WindowView, Seq<char>> {
    let p = splitn_char(line, 4, FIELD_SEPARATOR);
    if p.len() == 4 {
        Ok(window_of_fields(p))
    } else {
        Err(bad_window_message(line))
    }
}

/// The lines of a window listing, blank ones skipped, up to the first bad one.
pub open spec fn parse_window_lines(lines: Seq<Seq<char>>) -> Result<Seq<WindowView>, Seq<char>>
    decreases lines.len(),
{
    if lines.len() == 0 {
        Ok(seq![])
    } else {
        match parse_window_lines(lines.drop_last()) {
            Err(e) => Err(e),
            Ok(ws) => if trim(lines.last()).len() == 0 {
                Ok(ws)
            } else {
                match parse_window_line(lines.last()) {
                    Ok(w) => Ok(ws.push(w)),
                    Err(e) => Err(e),
                }
            },
        }
    }
}

/// Whether an exec result agrees with a spec result.
pub open spec fn result_matches<T: View>(r: Result<T, String>, s: Result<T::V, Seq<char>>) -> bool {
    match r {
        Ok(v) => s is Ok && v@ == s->Ok_0,
        Err(e) => s is Err && e@ == s->Err_0,
    }
}

/// Whether an exec list of windows agrees with a spec result.
pub open spec fn windows_result_matches(
    r: Result<Vec<Window>, String>,
    s: Result<Seq<WindowView>, Seq<char>>,
) -> bool {
    match r {
        Ok(v) => s is Ok && v@.map_values(|w: Window| w@) == s->Ok_0,
        Err(e) => s is Err && e@ == s->Err_0,
    }
}

fn window_from_fields(p: &Vec<Vec<char>>) -> (w: Window)
    requires
        p.len() >= 4,
    ensures
        w@ == window_of_fields(p@.map_values(|x: Vec<char>| x@)),
{
    Window {
        index: string_of(&p[0]),
        name: string_of(&p[1]),
        layout: string_of(&p[2]),
        active_pane_path: string_of(&p[3]),
        activity: 0,
    }
}

/// Reads a window line: index, name, layout and the active pane's directory,
/// separated by the field separator.
pub fn parse_window_string(window: &str) -> (r: Result<Window, String>)
    ensures
        result_matches(r, parse_window_line(window@)),
{
    let line = chars_of(window);
    let p = splitn_chars(&line, 4, FIELD_SEPARATOR);
    if p.len() == 4 {
        Ok(window_from_fields(&p))
    } else {
        Err(concat("Failed to parse window string: ", window))
    }
}

/// Reads the window lines of `text`, skipping blank lines; fails at the first line
/// that is not a window line.
pub fn parse_windows(text: &str) -> (r: Result<Vec<Window>, String>)
    ensures
        windows_result_matches(r, parse_window_lines(split_char(text@, LINE_SEPARATOR))),
{
    let chars = chars_of(text);
    let lines = split_chars(&chars, LINE_SEPARATOR);
    let ghost ls = lines@.map_values(|p: Vec<char>| p@);
    assert(ls =~= split_char(text@, LINE_SEPARATOR));
    let mut windows: Vec<Window> = Vec::new();
    let mut k: usize = 0;
    assert(ls.take(0) =~= Seq::<Seq<char>>::empty());
    assert(windows@.map_values(|w: Window| w@) =~= Seq::<WindowView>::empty());
    while k < lines.len()
        invariant
            k <= lines.len(),
            ls == lines@.map_values(|p: Vec<char>| p@),
            ls == split_char(text@, LINE_SEPARATOR),
            parse_window_lines(ls.take(k as int)) == Ok::<Seq<WindowView>, Seq<char>>(
                windows@.map_values(|w: Window| w@),
            ),
        decreases lines.len() - k,
    {
        assert(ls.take(k + 1).drop_last() == ls.take(k as int));
        assert(ls.take(k + 1).last() == lines@[k as int]@);
        if !is_blank(&lines[k]) {
            let line = string_of(&lines[k]);
            match parse_window_string(line.as_str()) {
                Ok(w) => {
                    let ghost before = windows@;
                    windows.push(w);
                    assert(windows@.map_values(|w: Window| w@) == before.map_values(|w: Window| w@).push(
                        w@,
                    ));
                },
                Err(e) => {
                    proof {
                        assert(parse_window_lines(ls.take(k + 1)) == Err::<Seq<WindowView>, Seq<char>>(
                            e@,
                        ));
                        lemma_window_lines_error_stays(ls, k as int + 1);
                    }
                    return Err(e);
                },
            }
        }
        k += 1;
    }
    assert(ls.take(lines.len() as int) == ls);
    Ok(windows)
}

proof fn lemma_window_lines_error_stays(ls: Seq<Seq<char>>, k: int)
    requires
        0 <= k <= ls.len(),
        parse_window_lines(ls.take(k)) is Err,
    ensures
        parse_window_lines(ls) == parse_window_lines(ls.take(k)),
    decreases ls.len() - k,
{
    if k < ls.len() {
        assert(ls.take(k + 1).drop_last() == ls.take(k));
        lemma_window_lines_error_stays(ls, k + 1);
    } else {
        assert(ls.take(k) == ls);
    }
}

// ---------------------------------------------------------------------------
// The listing of all windows of all sessions
// ---------------------------------------------------------------------------
/// A listing line: session name, session directory and the window, when the line
/// is not blank and has all six fields.
pub open spec fn listing_entry(line: Seq<char>) -> Option<(Seq<char>, Seq<char>, WindowView)> {
    let p = splitn_char(line, 6, FIELD_SEPARATOR);
    if trim(line).len() == 0 || p.len() < 6 {
        None
    } else {
        Some(
            (
                p[0],
                p[1],
                WindowView { index: p[2], name: p[3], layout: p[4], active_pane_path: p[5], activity: 0 },
            ),
        )
    }
}

/// The position of the first session named `name`, or `sessions.len()`.
pub open spec fn find_session_view(sessions: Seq<SessionView>, name: Seq<char>) -> int
    decreases sessions.len(),
{
    if sessions.len() == 0 {
        0
    } else if sessions[0].name == name {
        0
    } else {
        1 + find_session_view(sessions.drop_first(), name)
    }
}

/// The sessions after one more listing entry: the window joins its session, which is
/// added at the end when it is new.
pub open spec fn add_entry(
    sessions: Seq<SessionView>,
    entry: (Seq<char>, Seq<char>, WindowView),
) -> Seq<SessionView> {
    let i = find_session_view(sessions, entry.0);
    if i < sessions.len() {
        sessions.update(i, SessionView { windows: sessions[i].windows.push(entry.2), ..sessions[i] })
    } else {
        sessions.push(
            SessionView { name: entry.0, work_dir: entry.1, windows: seq![entry.2], activity: 0 },
        )
    }
}

/// The sessions described by listing lines.
pub open spec fn group_lines(lines: Seq<Seq<char>>) -> Seq<SessionView>
    decreases lines.len(),
{
    if lines.len() == 0 {
        seq![]
    } else {
        let acc = group_lines(lines.drop_last());
        match listing_entry(lines.last()) {
            None => acc,
            Some(e) => add_entry(acc, e),
        }
    }
}

/// The sessions described by a listing.
pub open spec fn parse_listing(text: Seq<char>) -> Seq<SessionView> {
    group_lines(split_char(text, LINE_SEPARATOR))
}

proof fn lemma_find_session_view(sessions: Seq<SessionView>, name: Seq<char>)
    ensures
        0 <= find_session_view(sessions, name) <= sessions.len(),
        forall|j: int| 0 <= j < find_session_view(sessions, name) ==> (#[trigger] sessions[j]).name != name,
        find_session_view(sessions, name) < sessions.len() ==> sessions[find_session_view(
            sessions,
            name,
        )].name == name,
    decreases sessions.len(),
{
    if sessions.len() > 0 && sessions[0].name != name {
        lemma_find_session_view(sessions.drop_first(), name);
        assert forall|j: int| 0 <= j < find_session_view(sessions, name) implies (
        #[trigger] sessions[j]).name != name by {
            if j > 0 {
                assert(sessions[j] == sessions.drop_first()[j - 1]);
            }
        }
    }
}

proof fn lemma_find_session_view_at(sessions: Seq<SessionView>, name: Seq<char>, k: int)
    requires
        0 <= k <= sessions.len(),
        forall|j: int| 0 <= j < k ==> (#[trigger] sessions[j]).name != name,
        k < sessions.len() ==> sessions[k].name == name,
    ensures
        find_session_view(sessions, name) == k,
{
    lemma_find_session_view(sessions, name);
}

/// Adds a listing entry to the sessions.
fn add_listing_entry(sessions: &mut Vec<Session>, name: String, work_dir: String, window: Window)
    ensures
        sessions_view(final(sessions)@) == add_entry(
            sessions_view(old(sessions)@),
            (name@, work_dir@, window@),
        ),
{
    let ghost v = sessions_view(sessions@);
    let mut i: usize = 0;
    while i < sessions.len()
        invariant
            i <= sessions.len(),
            v == sessions_view(sessions@),
            v == sessions_view(old(sessions)@),
            forall|j: int| 0 <= j < i ==> (#[trigger] sessions@[j]).name@ != name@,
        decreases sessions.len() - i,
    {
        if sessions[i] .name == name {
            proof {
                lemma_find_session_view_at(v, name@, i as int);
            }
            let ghost before = sessions@;
            let mut s = sessions.remove(i);
            let ghost old_windows = s.windows@;
            s.windows.push(window);
            assert(s.windows@.map_values(|w: Window| w@) == old_windows.map_values(|w: Window| w@).push(
                window@,
            ));
            sessions.insert(i, s);
            assert(sessions@ =~= before.update(i as int, s));
            assert(s@ == SessionView { windows: v[i as int].windows.push(window@), ..v[i as int] });
            assert(sessions_view(sessions@) =~= v.update(
                i as int,
                SessionView { windows: v[i as int].windows.push(window@), ..v[i as int] },
            ));
            return ;
        }
        i += 1;
    }
    proof {
        lemma_find_session_view_at(v, name@, i as int);
    }
    let mut windows: Vec<Window> = Vec::new();
    windows.push(window);
    assert(windows@.map_values(|w: Window| w@) =~= seq![window@]);
    let ghost before = sessions@;
    sessions.push(Session { name, work_dir, windows, activity: 0 });
    assert(sessions_view(sessions@) =~= sessions_view(before).push(
        SessionView { name: name@, work_dir: work_dir@, windows: seq![window@], activity: 0 },
    ));
}

/// Reads the listing of all windows of all sessions: one line per window with the
/// session name, the session directory, the window index, name and layout, and the
/// active pane's directory. Blank and incomplete lines are skipped; the windows of a
/// session are gathered in the order of their lines, the sessions in the order in
/// which they first appear.
pub fn parse_session_listing(text: &str) -> (r: Vec<Session>)
    ensures
        sessions_view(r@) == parse_listing(text@),
{
    let chars = chars_of(text);
    let lines = split_chars(&chars, LINE_SEPARATOR);
    let ghost ls = lines@.map_values(|p: Vec<char>| p@);
    assert(ls =~= split_char(text@, LINE_SEPARATOR));
    let mut sessions: Vec<Session> = Vec::new();
    let mut k: usize = 0;
    while k < lines.len()
        invariant
            k <= lines.len(),
            ls == lines@.map_values(|p: Vec<char>| p@),
            ls == split_char(text@, LINE_SEPARATOR),
            sessions_view(sessions@) == group_lines(ls.take(k as int)),
        decreases lines.len() - k,
    {
        assert(ls.take(k + 1).drop_last() == ls.take(k as int));
        assert(ls.take(k + 1).last() == lines@[k as int]@);
        let line = &lines[k];
        if !is_blank(line) {
            let p = splitn_chars(line, 6, FIELD_SEPARATOR);
            if p.len() == 6 {
                let window = Window {
                    index: string_of(&p[2]),
                    name: string_of(&p[3]),
                    layout: string_of(&p[4]),
                    active_pane_path: string_of(&p[5]),
                    activity: 0,
                };
                add_listing_entry(&mut sessions, string_of(&p[0]), string_of(&p[1]), window);
            } else {
                proof {
                    crate::text::lemma_splitn_len(line@, 6, FIELD_SEPARATOR);
                }
            }
        }
        k += 1;
    }
    assert(ls.take(lines.len() as int) == ls);
    sessions
}

/// The names of the sessions are all different.
pub open spec fn names_distinct(sessions: Seq<SessionView>) -> bool {
    forall|a: int, b: int|
        0 <= a < b < sessions.len() ==> (#[trigger] sessions[a]).name != (#[trigger] sessions[b]).name
}

/// A listing never yields two sessions of the same name.
pub proof fn lemma_listing_names_distinct(text: Seq<char>)
    ensures
        names_distinct(parse_listing(text)),
{
    lemma_group_lines_distinct(split_char(text, LINE_SEPARATOR));
}

proof fn lemma_group_lines_distinct(lines: Seq<Seq<char>>)
    ensures
        names_distinct(group_lines(lines)),
    decreases lines.len(),
{
    if lines.len() > 0 {
        lemma_group_lines_distinct(lines.drop_last());
        let acc = group_lines(lines.drop_last());
        if let Some(e) = listing_entry(lines.last()) {
            lemma_find_session_view(acc, e.0);
            let r = add_entry(acc, e);
            assert forall|a: int, b: int| 0 <= a < b < r.len() implies (#[trigger] r[a]).name != (
            #[trigger] r[b]).name by {
                if b == acc.len() {
                    assert(r[a] == acc[a]);
                }
            }
        }
    }
}

/// The number of windows in a list of sessions.
pub open spec fn window_total(sessions: Seq<SessionView>) -> int
    decreases sessions.len(),
{
    if sessions.len() == 0 {
        0
    } else {
        window_total(sessions.drop_last()) + sessions.last().windows.len()
    }
}

/// The number of listing lines that describe a window.
pub open spec fn entry_count(lines: Seq<Seq<char>>) -> int
    decreases lines.len(),
{
    if lines.len() == 0 {
        0
    } else {
        entry_count(lines.drop_last()) + if listing_entry(lines.last()) is Some {
            1int
        } else {
            0
        }
    }
}

proof fn lemma_window_total_update(s: Seq<SessionView>, i: int, v: SessionView)
    requires
        0 <= i < s.len(),
    ensures
        window_total(s.update(i, v)) == window_total(s) - s[i].windows.len() + v.windows.len(),
    decreases s.len(),
{
    if i < s.len() - 1 {
        assert(s.update(i, v).drop_last() == s.drop_last().update(i, v));
        lemma_window_total_update(s.drop_last(), i, v);
    } else {
        assert(s.update(i, v).drop_last() == s.drop_last());
    }
}

/// Every complete listing line gives one window, and no window comes from anywhere
/// else.
pub proof fn lemma_listing_keeps_every_window(lines: Seq<Seq<char>>)
    ensures
        window_total(group_lines(lines)) == entry_count(lines),
    decreases lines.len(),
{
    if lines.len() > 0 {
        lemma_listing_keeps_every_window(lines.drop_last());
        let acc = group_lines(lines.drop_last());
        if let Some(e) = listing_entry(lines.last()) {
            lemma_find_session_view(acc, e.0);
            let i = find_session_view(acc, e.0);
            if i < acc.len() {
                lemma_window_total_update(
                    acc,
                    i,
                    SessionView { windows: acc[i].windows.push(e.2), ..acc[i] },
                );
            } else {
                let r = add_entry(acc, e);
                assert(r.drop_last() == acc);
            }
        }
    }
}

// ---------------------------------------------------------------------------
// Session names, pane ids, captured text
// ---------------------------------------------------------------------------
/// The names in a listing of session names: its lines trimmed, blank ones skipped.
pub open spec fn names_of_lines(lines: Seq<Seq<char>>) -> Seq<Seq<char>>
    decreases lines.len(),
{
    if lines.len() == 0 {
        seq![]
    } else {
        let acc = names_of_lines(lines.drop_last());
        if trim(lines.last()).len() == 0 {
            acc
        } else {
            acc.push(trim(lines.last()))
        }
    }
}

/// Reads a listing of session names, one per line.
pub fn parse_session_names(text: &str) -> (r: Vec<String>)
    ensures
        r@.map_values(|s: String| s@) == names_of_lines(split_char(text@, LINE_SEPARATOR)),
{
    let chars = chars_of(text);
    let lines = split_chars(&chars, LINE_SEPARATOR);
    let ghost ls = lines@.map_values(|p: Vec<char>| p@);
    assert(ls =~= split_char(text@, LINE_SEPARATOR));
    let mut names: Vec<String> = Vec::new();
    let mut k: usize = 0;
    while k < lines.len()
        invariant
            k <= lines.len(),
            ls == lines@.map_values(|p: Vec<char>| p@),
            ls == split_char(text@, LINE_SEPARATOR),
            names@.map_values(|s: String| s@) == names_of_lines(ls.take(k as int)),
        decreases lines.len() - k,
    {
        assert(ls.take(k + 1).drop_last() == ls.take(k as int));
        assert(ls.take(k + 1).last() == lines@[k as int]@);
        if !is_blank(&lines[k]) {
            let ghost before = names@;
            names.push(trimmed_string(&lines[k]));
            assert(names@.map_values(|s: String| s@) == before.map_values(|s: String| s@).push(
                trim(lines@[k as int]@),
            ));
        }
        k += 1;
    }
    assert(ls.take(lines.len() as int) == ls);
    names
}

/// Whether `name` is one of the non-empty lines of `text`, exactly.
pub fn listing_has_line(text: &str, name: &str) -> (r: bool)
    ensures
        r == (name@.len() > 0 && split_char(text@, LINE_SEPARATOR).contains(name@)),
{
    if name.is_empty() {
        return false;
    }
    let chars = chars_of(text);
    let lines = split_chars(&chars, LINE_SEPARATOR);
    let target = chars_of(name);
    let ghost ls = lines@.map_values(|p: Vec<char>| p@);
    assert(ls =~= split_char(text@, LINE_SEPARATOR));
    let mut k: usize = 0;
    while k < lines.len()
        invariant
            k <= lines.len(),
            ls == lines@.map_values(|p: Vec<char>| p@),
            ls == split_char(text@, LINE_SEPARATOR),
            target@ == name@,
            name@.len() > 0,
            forall|j: int| 0 <= j < k ==> ls[j] != name@,
        decreases lines.len() - k,
    {
        assert(ls[k as int] == lines@[k as int]@);
        if chars_equal(&lines[k], &target) {
            assert(ls[k as int] == name@);
            return true;
        }
        k += 1;
    }
    false
}

fn chars_equal(a: &Vec<char>, b: &Vec<char>) -> (r: bool)
    ensures
        r == (a@ == b@),
{
    if a.len() != b.len() {
        return false;
    }
    let mut i: usize = 0;
    while i < a.len()
        invariant
            a.len() == b.len(),
            i <= a.len(),
            forall|j: int| 0 <= j < i ==> a@[j] == b@[j],
        decreases a.len() - i,
    {
        if a[i] != b[i] {
            return false;
        }
        i += 1;
    }
    assert(a@ =~= b@);
    true
}

/// The first line of `lines` that is not blank, trimmed.
pub open spec fn first_nonblank(lines: Seq<Seq<char>>) -> Option<Seq<char>>
    decreases lines.len(),
{
    if lines.len() == 0 {
        None
    } else if trim(lines[0]).len() > 0 {
        Some(trim(lines[0]))
    } else {
        first_nonblank(lines.drop_first())
    }
}

/// The first line of `text` that is not blank, trimmed.
pub fn first_nonblank_line(text: &str) -> (r: Option<String>)
    ensures
        match first_nonblank(split_char(text@, LINE_SEPARATOR)) {
            Some(l) => r matches Some(s) && s@ == l,
            None => r is None,
        },
{
    let chars = chars_of(text);
    let lines = split_chars(&chars, LINE_SEPARATOR);
    let ghost ls = lines@.map_values(|p: Vec<char>| p@);
    assert(ls =~= split_char(text@, LINE_SEPARATOR));
    let mut k: usize = 0;
    assert(ls.skip(0) == ls);
    while k < lines.len()
        invariant
            k <= lines.len(),
            ls == lines@.map_values(|p: Vec<char>| p@),
            ls == split_char(text@, LINE_SEPARATOR),
            first_nonblank(ls) == first_nonblank(ls.skip(k as int)),
        decreases lines.len() - k,
    {
        assert(ls.skip(k as int)[0] == lines@[k as int]@);
        if !is_blank(&lines[k]) {
            assert(first_nonblank(ls.skip(k as int)) == Some(trim(lines@[k as int]@)));
            return Some(trimmed_string(&lines[k]));
        }
        assert(ls.skip(k as int).drop_first() == ls.skip(k + 1));
        k += 1;
    }
    None
}

/// The text shown for a character of a captured pane: carriage returns dropped, tabs
/// widened to eight spaces.
pub open spec fn expand_char(c: char) -> Seq<char> {
    if c == '\r' {
        seq![]
    } else if c == '\t' {
        seq![' ', ' ', ' ', ' ', ' ', ' ', ' ', ' ']
    } else {
        seq![c]
    }
}

/// The text of a captured pane with carriage returns dropped and tabs widened.
pub open spec fn expand_text(s: Seq<char>) -> Seq<char>
    decreases s.len(),
{
    if s.len() == 0 {
        seq![]
    } else {
        expand_text(s.drop_last()) + expand_char(s.last())
    }
}

/// Captured text without carriage returns or tabs is kept as it is: every character,
/// escape sequences included, in order.
pub proof fn lemma_expand_plain(s: Seq<char>)
    requires
        forall|k: int| 0 <= k < s.len() ==> s[k] != '\r' && s[k] != '\t',
    ensures
        expand_text(s) == s,
    decreases s.len(),
{
    if s.len() > 0 {
        lemma_expand_plain(s.drop_last());
        assert(s.drop_last().push(s.last()) == s);
    }
}

/// Expanding text piece by piece gives the same as expanding it whole.
pub proof fn lemma_expand_concat(a: Seq<char>, b: Seq<char>)
    ensures
        expand_text(a + b) == expand_text(a) + expand_text(b),
    decreases b.len(),
{
    if b.len() > 0 {
        lemma_expand_concat(a, b.drop_last());
        assert((a + b).drop_last() == a + b.drop_last());
        assert((a + b).last() == b.last());
    } else {
        assert(a + b == a);
    }
}

/// A carriage return is dropped and a tab becomes eight spaces, wherever they stand.
pub proof fn lemma_expand_returns_and_tabs(a: Seq<char>, b: Seq<char>)
    ensures
        expand_text(a + seq!['\r'] + b) == expand_text(a) + expand_text(b),
        expand_text(a + seq!['\t'] + b) == expand_text(a) + seq![' ', ' ', ' ', ' ', ' ', ' ', ' ', ' ']
            + expand_text(b),
{
    lemma_expand_concat(a + seq!['\r'], b);
    lemma_expand_concat(a, seq!['\r']);
    lemma_expand_concat(a + seq!['\t'], b);
    lemma_expand_concat(a, seq!['\t']);
    let cr = seq!['\r'];
    let tab = seq!['\t'];
    assert(cr.drop_last() =~= Seq::<char>::empty());
    assert(tab.drop_last() =~= Seq::<char>::empty());
    assert(cr.last() == '\r');
    assert(tab.last() == '\t');
    assert(expand_text(Seq::<char>::empty()) == Seq::<char>::empty());
    assert(expand_text(cr) == expand_text(cr.drop_last()) + expand_char('\r'));
    assert(expand_text(tab) == expand_text(tab.drop_last()) + expand_char('\t'));
    assert(expand_text(cr) =~= Seq::<char>::empty());
    assert(expand_text(tab) =~= seq![' ', ' ', ' ', ' ', ' ', ' ', ' ', ' ']);
    assert(expand_text(a) + Seq::<char>::empty() =~= expand_text(a));
}

/// A capture without carriage returns, tabs or trailing whitespace is shown unchanged.
pub proof fn lemma_clean_capture_plain(s: Seq<char>)
    requires
        forall|k: int| 0 <= k < s.len() ==> s[k] != '\r' && s[k] != '\t',
        s.len() == 0 || !is_whitespace(s.last()),
    ensures
        trim_end(expand_text(s)) == s,
{
    lemma_expand_plain(s);
}

/// Captured pane text as shown: carriage returns dropped, tabs widened to eight
/// spaces, trailing whitespace removed.
pub fn clean_capture(text: &str) -> (r: String)
    ensures
        r@ == trim_end(expand_text(text@)),
{
    let chars = chars_of(text);
    let mut out: Vec<char> = Vec::new();
    let mut i: usize = 0;
    while i < chars.len()
        invariant
            i <= chars.len(),
            chars@ == text@,
            out@ == expand_text(chars@.take(i as int)),
        decreases chars.len() - i,
    {
        assert(chars@.take(i + 1).drop_last() == chars@.take(i as int));
        let c = chars[i];
        if c == '\r' {
        } else if c == '\t' {
            let mut k: usize = 0;
            while k < 8
                invariant
                    k <= 8,
                    out@ == expand_text(chars@.take(i as int)) + Seq::new(k as nat, |j: int| ' '),
                decreases 8 - k,
            {
                out.push(' ');
                assert(Seq::new((k + 1) as nat, |j: int| ' ') =~= Seq::new(k as nat, |j: int| ' ').push(
                    ' ',
                ));
                k += 1;
            }
            assert(Seq::new(8, |j: int| ' ') =~= seq![' ', ' ', ' ', ' ', ' ', ' ', ' ', ' ']);
        } else {
            out.push(c);
        }
        i += 1;
    }
    assert(chars@.take(chars.len() as int) == chars@);
    trim_end_string(&out)
}

} // verus!
