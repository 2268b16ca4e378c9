//! The saved form of the sessions: names and directories, enough to create them again.
use vstd::prelude::*;

use crate::tmux::session::{Session, Window};

verus! {

/// The saved sessions.
#[derive(Debug)]
pub struct SessionBackupFile {
    sessions: Vec<SessionRecord>,
}

/// A saved session: its name, its directory and its windows.
#[derive(Debug)]
pub struct SessionRecord {
    pub name: String,
    pub path: String,
    pub windows: Vec<WindowRecord>,
}

/// A saved window: its name and directory.
#[derive(Debug)]
pub struct WindowRecord {
    pub name: String,
    pub path: String,
}

/// Another name of [`SessionRecord`].
pub type SessionBackup = SessionRecord;

/// Another name of [`WindowRecord`].
pub type WindowBackup = WindowRecord;

/// A saved window as plain values.
pub struct WindowRecordView {
    pub name: Seq<char>,
    pub path: Seq<char>,
}

/// A saved session as plain values.
pub struct SessionRecordView {
    pub name: Seq<char>,
    pub path: Seq<char>,
    pub windows: Seq<WindowRecordView>,
}

impl View for WindowRecord {
    type V = WindowRecordView;

    open spec fn view(&self) -> WindowRecordView {
        WindowRecordView { name: self.name@, path: self.path@ }
    }
}

impl View for SessionRecord {
    type V = SessionRecordView;

    open spec fn view(&self) -> SessionRecordView {
        SessionRecordView {
            name: self.name@,
            path: self.path@,
            windows: self.windows@.map_values(|w: WindowRecord| w@),
        }
    }
}

impl View for SessionBackupFile {
    type V = Seq<SessionRecordView>;

    closed spec fn view(&self) -> Seq<SessionRecordView> {
        self.sessions@.map_values(|s: SessionRecord| s@)
    }
}

/// The directory saved for a window: that of its active pane, or the session's when
/// none is known.
pub open spec fn window_dir(session: Session, window: Window) -> Seq<char> {
    if window.active_pane_path@.len() == 0 {
        session.work_dir@
    } else {
        window.active_pane_path@
    }
}

/// The saved form of a session.
pub open spec fn record_of(session: Session) -> SessionRecordView {
    SessionRecordView {
        name: session.name@,
        path: session.work_dir@,
        windows: session.windows@.map_values(
            |w: Window| WindowRecordView { name: w.name@, path: window_dir(session, w) },
        ),
    }
}

/// The saved form of a list of sessions.
pub open spec fn saved_form(sessions: Seq<Session>) -> Seq<SessionRecordView> {
    sessions.map_values(|s: Session| record_of(s))
}

/// The number of saved windows.
pub open spec fn record_window_total(records: Seq<SessionRecordView>) -> int
    decreases records.len(),
{
    if records.len() == 0 {
        0
    } else {
        record_window_total(records.drop_last()) + records.last().windows.len()
    }
}

fn window_record(session: &Session, window: &Window) -> (r: WindowRecord)
    ensures
        r@ == (WindowRecordView { name: window.name@, path: window_dir(*session, *window) }),
{
    let path = if window.active_pane_path.as_str().is_empty() {
        session.work_dir.clone()
    } else {
        window.active_pane_path.clone()
    };
    WindowRecord { name: window.name.clone(), path }
}

fn session_record(session: &Session) -> (r: SessionRecord)
    ensures
        r@ == record_of(*session),
{
    let mut windows: Vec<WindowRecord> = Vec::new();
    let mut j: usize = 0;
    while j < session.windows.len()
        invariant
            j <= session.windows.len(),
            windows@.len() == j,
            forall|k: int| 0 <= k < j ==> (#[trigger] windows@[k])@ == record_of(*session).windows[k],
        decreases session.windows.len() - j,
    {
        windows.push(window_record(session, &session.windows[j]));
        j += 1;
    }
    assert(windows@.map_values(|w: WindowRecord| w@) =~= record_of(*session).windows);
    SessionRecord { name: session.name.clone(), path: session.work_dir.clone(), windows }
}

impl SessionBackupFile {
    /// The saved form of `sessions`: for each its name and directory, and for each of
    /// its windows the name and the directory of its active pane (the session's when
    /// that is empty).
    pub fn from_sessions(sessions: &[Session]) -> (r: Self)
        ensures
            r@ == saved_form(sessions@),
    {
        let mut records: Vec<SessionRecord> = Vec::new();
        let mut i: usize = 0;
        while i < sessions.len()
            invariant
                i <= sessions@.len(),
                records@.len() == i,
                forall|k: int| 0 <= k < i ==> (#[trigger] records@[k])@ == record_of(sessions@[k]),
            decreases sessions.len() - i,
        {
            records.push(session_record(&sessions[i]));
            i += 1;
        }
        assert(records@.map_values(|s: SessionRecord| s@) =~= sessions@.map_values(
            |s: Session| record_of(s),
        ));
        SessionBackupFile { sessions: records }
    }

    /// Saved sessions as they were read back.
    pub fn from_records(sessions: Vec<SessionRecord>) -> (r: Self)
        ensures
            r@ == sessions@.map_values(|s: SessionRecord| s@),
    {
        SessionBackupFile { sessions }
    }

    /// The saved sessions, taken out.
    pub fn into_records(self) -> (r: Vec<SessionRecord>)
        ensures
            r@.map_values(|s: SessionRecord| s@) == self@,
    {
        self.sessions
    }

    /// The saved sessions.
    pub fn sessions(&self) -> (r: &[SessionRecord])
        ensures
            r@.map_values(|s: SessionRecord| s@) == self@,
    {
        self.sessions.as_slice()
    }

    /// The number of saved windows, when it fits a `usize`.
    pub fn window_total(&self) -> (r: Option<usize>)
        ensures
            match r {
                Some(n) => n == record_window_total(self@),
                None => record_window_total(self@) > usize::MAX,
            },
    {
        let mut total: usize = 0;
        let mut i: usize = 0;
        while i < self.sessions.len()
            invariant
                i <= self.sessions.len(),
                total == record_window_total(self@.take(i as int)),
            decreases self.sessions.len() - i,
        {
            assert(self@.take(i + 1).drop_last() == self@.take(i as int));
            let n = self.sessions[i].windows.len();
            if total > usize::MAX - n {
                proof {
                    lemma_total_grows(self@, i as int + 1);
                }
                return None;
            }
            total = total + n;
            i += 1;
        }
        assert(self@.take(self.sessions.len() as int) == self@);
        Some(total)
    }
}

/// Adding a record adds its windows to the total.
pub proof fn lemma_total_take(records: Seq<SessionRecordView>, k: int)
    requires
        0 <= k < records.len(),
    ensures
        record_window_total(records.take(k + 1)) == record_window_total(records.take(k))
            + records[k].windows.len(),
{
    assert(records.take(k + 1).drop_last() == records.take(k));
}

/// The total of the first `k` records is at most the total of all.
pub proof fn lemma_total_grows(records: Seq<SessionRecordView>, k: int)
    requires
        0 <= k <= records.len(),
    ensures
        record_window_total(records) >= record_window_total(records.take(k)),
    decreases records.len() - k,
{
    if k < records.len() {
        lemma_total_grows(records, k + 1);
        assert(records.take(k + 1).drop_last() == records.take(k));
    } else {
        assert(records.take(k) == records);
    }
}

} // verus!
