//! Creating saved sessions again.
//!
//! A restore goes through the saved sessions one by one. For each it finds a free name
//! (the saved one, else the saved one followed by `-restored-2`, `-restored-3`, ...),
//! creates the session in the directory of its first window, reads it back, gives its
//! first window the saved name, and creates the other windows. A session that cannot be
//! created in full is reported and the restore goes on with the next one.
use vstd::prelude::*;

use crate::app::backup::{
    lemma_total_grows, lemma_total_take, record_window_total, SessionBackupFile, SessionRecord,
    SessionRecordView,
};
use crate::app::state::{ConfirmAction, Modal, StatusLine};
use crate::app::{status_is, App, Effect, RefreshOutcome};
use crate::text::{concat, concat3, decimal, decimal_string};
use crate::tmux::command::{
    create_session_command, create_session_with_path, create_window_command,
    create_window_with_path, rename_window, rename_window_command, CommandView, TmuxCommand,
};
use crate::tmux::session::{Session, SessionView};

verus! {

/// What a restore has done so far.
pub struct RestoreCounters {
    pub created_sessions: usize,
    pub created_windows: usize,
    pub renamed_sessions: usize,
}

/// Where a restore stands with the session being restored.
pub enum RestorePhase {
    /// Asking whether a name is taken: the saved name, or it followed by
    /// `-restored-` and the suffix.
    Resolve { suffix: Option<usize> },
    /// Creating the session under the name `target`.
    Create { target: String },
    /// Reading the created session back.
    ReadBack { target: String },
    /// Giving the first window its saved name.
    RenameFirst { target: String, window_index: String },
    /// Creating saved window number `window`.
    AddWindow { target: String, window: usize },
    /// Every saved session has been handled.
    Finished,
}

/// A restore phase as plain values.
pub enum PhaseView {
    Resolve { suffix: Option<nat> },
    Create { target: Seq<char> },
    ReadBack { target: Seq<char> },
    RenameFirst { target: Seq<char>, window_index: Seq<char> },
    AddWindow { target: Seq<char>, window: nat },
    Finished,
}

impl View for RestorePhase {
    type V = PhaseView;

    open spec fn view(&self) -> PhaseView {
        match self {
            RestorePhase::Resolve { suffix } => PhaseView::Resolve {
                suffix: match suffix {
                    Some(k) => Some(*k as nat),
                    None => None,
                },
            },
            RestorePhase::Create { target } => PhaseView::Create { target: target@ },
            RestorePhase::ReadBack { target } => PhaseView::ReadBack { target: target@ },
            RestorePhase::RenameFirst { target, window_index } => PhaseView::RenameFirst {
                target: target@,
                window_index: window_index@,
            },
            RestorePhase::AddWindow { target, window } => PhaseView::AddWindow {
                target: target@,
                window: *window as nat,
            },
            RestorePhase::Finished => PhaseView::Finished,
        }
    }
}

/// A restore in progress.
pub struct RestoreJob {
    records: Vec<SessionRecord>,
    current: usize,
    phase: RestorePhase,
    counters: RestoreCounters,
    errors: Vec<String>,
}

/// A restore as plain values: the saved sessions, the one being restored, where it
/// stands, the counters and the errors so far.
pub struct RestoreJobView {
    pub records: Seq<SessionRecordView>,
    pub current: nat,
    pub phase: PhaseView,
    pub created_sessions: nat,
    pub created_windows: nat,
    pub renamed_sessions: nat,
    pub errors: Seq<Seq<char>>,
}

impl View for RestoreJob {
    type V = RestoreJobView;

    closed spec fn view(&self) -> RestoreJobView {
        parts_view(self.records@, self.current, self.phase@, self.counters, self.errors@)
    }
}

/// What a restore needs done next.
pub enum RestoreStep {
    /// Find out whether a session of this name exists.
    CheckSession(String),
    /// Run the command.
    Run(TmuxCommand),
    /// Read the session of this name.
    ReadSession(String),
    /// Every saved session has been handled: read the sessions, and finish.
    Refresh,
    /// No restore is in progress.
    Idle,
}

/// A restore step as plain values.
pub enum StepView {
    CheckSession(Seq<char>),
    Run(CommandView),
    ReadSession(Seq<char>),
    Refresh,
    Idle,
}

impl View for RestoreStep {
    type V = StepView;

    open spec fn view(&self) -> StepView {
        match self {
            RestoreStep::CheckSession(n) => StepView::CheckSession(n@),
            RestoreStep::Run(c) => StepView::Run(c@),
            RestoreStep::ReadSession(n) => StepView::ReadSession(n@),
            RestoreStep::Refresh => StepView::Refresh,
            RestoreStep::Idle => StepView::Idle,
        }
    }
}

/// What came of a restore step.
pub enum RestoreEvent {
    /// Whether the session exists, or why that could not be found out.
    Checked(Result<bool, String>),
    /// How the command went.
    Ran(Result<(), String>),
    /// The session read, or why it could not be read.
    Read(Result<Session, String>),
}

/// A restore event as plain values.
pub enum EventView {
    Checked(Result<bool, Seq<char>>),
    Ran(Result<(), Seq<char>>),
    Read(Result<SessionView, Seq<char>>),
}

impl View for RestoreEvent {
    type V = EventView;

    open spec fn view(&self) -> EventView {
        match self {
            RestoreEvent::Checked(r) => EventView::Checked(
                match r {
                    Ok(b) => Ok(*b),
                    Err(e) => Err(e@),
                },
            ),
            RestoreEvent::Ran(r) => EventView::Ran(
                match r {
                    Ok(()) => Ok(()),
                    Err(e) => Err(e@),
                },
            ),
            RestoreEvent::Read(r) => EventView::Read(
                match r {
                    Ok(s) => Ok(s@),
                    Err(e) => Err(e@),
                },
            ),
        }
    }
}

// ---------------------------------------------------------------------------
// The model
// ---------------------------------------------------------------------------
/// The name tried for a saved session: its own, or it followed by `-restored-` and the
/// suffix.
pub open spec fn candidate_name(base: Seq<char>, suffix: Option<nat>) -> Seq<char> {
    match suffix {
        None => base,
        Some(k) => base + "-restored-"@ + decimal(k),
    }
}

/// The restore that starts with the saved sessions `records`.
pub open spec fn start_view(records: Seq<SessionRecordView>) -> RestoreJobView {
    RestoreJobView {
        records,
        current: 0,
        phase: if records.len() > 0 {
            PhaseView::Resolve { suffix: None }
        } else {
            PhaseView::Finished
        },
        created_sessions: 0,
        created_windows: 0,
        renamed_sessions: 0,
        errors: seq![],
    }
}

/// The restore moved on to the next saved session.
pub open spec fn next_record(j: RestoreJobView) -> RestoreJobView {
    RestoreJobView {
        current: j.current + 1,
        phase: if j.current + 1 < j.records.len() {
            PhaseView::Resolve { suffix: None }
        } else {
            PhaseView::Finished
        },
        ..j
    }
}

/// The restore after the current session failed with `message`.
pub open spec fn record_failed(j: RestoreJobView, message: Seq<char>) -> RestoreJobView {
    next_record(RestoreJobView { errors: j.errors.push(message), ..j })
}

/// The restore after the current session was created with `windows` windows.
pub open spec fn record_done(j: RestoreJobView, windows: nat) -> RestoreJobView {
    next_record(
        RestoreJobView {
            created_sessions: j.created_sessions + 1,
            created_windows: j.created_windows + windows,
            ..j
        },
    )
}

/// The restore after an event, and the message when it stops altogether. Events that
/// do not answer the current step change nothing.
pub open spec fn transition(j: RestoreJobView, e: EventView) -> (RestoreJobView, Option<Seq<char>>) {
    let rec = j.records[j.current as int];
    match j.phase {
        PhaseView::Resolve { suffix } => match e {
            EventView::Checked(Err(m)) => (
                j,
                Some("Restore failed while resolving session "@ + rec.name + ": "@ + m),
            ),
            EventView::Checked(Ok(true)) => (
                RestoreJobView {
                    phase: PhaseView::Resolve {
                        suffix: Some(
                            match suffix {
                                None => 2,
                                Some(k) => if k < usize::MAX {
                                    k + 1
                                } else {
                                    k
                                },
                            },
                        ),
                    },
                    ..j
                },
                None,
            ),
            EventView::Checked(Ok(false)) => (
                RestoreJobView {
                    phase: PhaseView::Create { target: candidate_name(rec.name, suffix) },
                    renamed_sessions: j.renamed_sessions + if suffix is Some {
                        1nat
                    } else {
                        0
                    },
                    ..j
                },
                None,
            ),
            _ => (j, None),
        },
        PhaseView::Create { target } => match e {
            EventView::Ran(Err(_)) => (record_failed(j, "session "@ + target + ": create failed"@), None),
            EventView::Ran(Ok(())) => if rec.windows.len() == 0 {
                (record_done(j, 0), None)
            } else {
                (RestoreJobView { phase: PhaseView::ReadBack { target }, ..j }, None)
            },
            _ => (j, None),
        },
        PhaseView::ReadBack { target } => match e {
            EventView::Read(Err(_)) => (
                record_failed(j, "session "@ + target + ": read after create failed"@),
                None,
            ),
            EventView::Read(Ok(s)) => if s.windows.len() == 0 {
                (record_failed(j, "session "@ + target + ": created with no windows"@), None)
            } else {
                (
                    RestoreJobView {
                        phase: PhaseView::RenameFirst { target, window_index: s.windows[0].index },
                        ..j
                    },
                    None,
                )
            },
            _ => (j, None),
        },
        PhaseView::RenameFirst { target, window_index } => match e {
            EventView::Ran(Err(_)) => (
                record_failed(j, "session "@ + target + ": rename first window failed"@),
                None,
            ),
            EventView::Ran(Ok(())) => if rec.windows.len() == 1 {
                (record_done(j, 1), None)
            } else {
                (RestoreJobView { phase: PhaseView::AddWindow { target, window: 1 }, ..j }, None)
            },
            _ => (j, None),
        },
        PhaseView::AddWindow { target, window } => match e {
            EventView::Ran(Err(m)) => (
                record_failed(
                    j,
                    "session "@ + target + ": create window "@ + rec.windows[window as int].name
                        + " failed: "@ + m,
                ),
                None,
            ),
            EventView::Ran(Ok(())) => if window + 1 == rec.windows.len() {
                (record_done(j, rec.windows.len()), None)
            } else {
                (
                    RestoreJobView { phase: PhaseView::AddWindow { target, window: window + 1 }, ..j },
                    None,
                )
            },
            _ => (j, None),
        },
        PhaseView::Finished => (j, None),
    }
}

/// What a restore needs done next: ask about the candidate name; create the session
/// (in its first window's directory, or its own when it has no windows); read it back;
/// rename its first window; create the next window; or, when done, refresh.
pub open spec fn request_view(j: RestoreJobView) -> StepView {
    let rec = j.records[j.current as int];
    match j.phase {
        PhaseView::Resolve { suffix } => StepView::CheckSession(candidate_name(rec.name, suffix)),
        PhaseView::Create { target } => StepView::Run(
            create_session_command(
                target,
                if rec.windows.len() == 0 {
                    rec.path
                } else {
                    rec.windows[0].path
                },
            ),
        ),
        PhaseView::ReadBack { target } => StepView::ReadSession(target),
        PhaseView::RenameFirst { target, window_index } => StepView::Run(
            rename_window_command(target, window_index, rec.windows[0].name),
        ),
        PhaseView::AddWindow { target, window } => StepView::Run(
            create_window_command(
                target,
                rec.windows[window as int].name,
                rec.windows[window as int].path,
            ),
        ),
        PhaseView::Finished => StepView::Refresh,
    }
}

/// The message that ends a restore: how many sessions and windows were created and
/// sessions renamed, and when some failed, how many and the first failure.
pub open spec fn restore_summary(j: RestoreJobView) -> (Seq<char>, bool) {
    let tail = "created "@ + decimal(j.created_sessions) + " sessions and "@ + decimal(
        j.created_windows,
    ) + " windows, renamed "@ + decimal(j.renamed_sessions) + " duplicate sessions"@;
    if j.errors.len() == 0 {
        ("Restore complete: "@ + tail, false)
    } else {
        ("Restore finished with "@ + decimal(j.errors.len()) + " errors: "@ + j.errors[0] + "; "@
            + tail, true)
    }
}

/// The restores that can be reached: every saved session handled so far was either
/// created or reported, the counters stay within the saved totals, and the phase fits
/// the session being restored.
pub open spec fn job_ok(j: RestoreJobView) -> bool {
    &&& j.current <= j.records.len()
    &&& j.records.len() <= usize::MAX
    &&& record_window_total(j.records) <= usize::MAX
    &&& (j.phase is Finished <==> j.current == j.records.len())
    &&& j.created_sessions + j.errors.len() == j.current
    &&& j.created_windows <= record_window_total(j.records.take(j.current as int))
    &&& j.renamed_sessions <= j.current + if j.phase is Resolve || j.phase is Finished {
        0nat
    } else {
        1
    }
    &&& match j.phase {
        PhaseView::ReadBack { .. } => j.records[j.current as int].windows.len() >= 1,
        PhaseView::RenameFirst { .. } => j.records[j.current as int].windows.len() >= 1,
        PhaseView::AddWindow { window, .. } => 1 <= window < j.records[j.current as int].windows.len(),
        _ => true,
    }
}

/// A finished restore has handled every saved session: each was either created or
/// reported as an error, and no more windows were created than were saved.
pub proof fn lemma_finished_restore_accounts(j: RestoreJobView)
    requires
        job_ok(j),
        j.phase is Finished,
    ensures
        j.created_sessions + j.errors.len() == j.records.len(),
        j.created_windows <= record_window_total(j.records),
{
    assert(j.records.take(j.current as int) == j.records);
}

/// Once a session has been read back, a restore in which every step succeeds renames its
/// first window, then creates each further saved window in order, one step each, and
/// counts the session done (with all its saved windows) only after the last one was
/// created.
pub proof fn lemma_restore_creates_every_window(j: RestoreJobView)
    requires
        job_ok(j),
    ensures
        ({
            let rec = j.records[j.current as int];
            let n = rec.windows.len();
            let next = transition(j, EventView::Ran(Ok(()))).0;
            let done = {
                &&& next.records == j.records
                &&& next.current == j.current + 1
                &&& next.created_sessions == j.created_sessions + 1
                &&& next.created_windows == j.created_windows + n
                &&& next.errors == j.errors
            };
            match j.phase {
                PhaseView::RenameFirst { target, window_index } => {
                    &&& request_view(j) == StepView::Run(
                        rename_window_command(target, window_index, rec.windows[0].name),
                    )
                    &&& if n >= 2 {
                        next == RestoreJobView {
                            phase: PhaseView::AddWindow { target, window: 1 },
                            ..j
                        }
                    } else {
                        done
                    }
                },
                PhaseView::AddWindow { target, window } => {
                    &&& 1 <= window < n
                    &&& request_view(j) == StepView::Run(
                        create_window_command(
                            target,
                            rec.windows[window as int].name,
                            rec.windows[window as int].path,
                        ),
                    )
                    &&& if window + 1 < n {
                        next == RestoreJobView {
                            phase: PhaseView::AddWindow { target, window: window + 1 },
                            ..j
                        }
                    } else {
                        done
                    }
                },
                _ => true,
            }
        }),
{
}

/// A failed step of a session being created reports it and moves on to the next saved
/// session, counting nothing for the failed one.
pub proof fn lemma_restore_failure_moves_on(j: RestoreJobView, m: Seq<char>)
    requires
        job_ok(j),
        j.phase is Create || j.phase is RenameFirst || j.phase is AddWindow,
    ensures
        ({
            let next = transition(j, EventView::Ran(Err(m))).0;
            &&& next.current == j.current + 1
            &&& next.created_sessions == j.created_sessions
            &&& next.created_windows == j.created_windows
            &&& next.errors.len() == j.errors.len() + 1
            &&& next.errors.take(j.errors.len() as int) == j.errors
        }),
{
    let next = transition(j, EventView::Ran(Err(m))).0;
    assert(next.errors.take(j.errors.len() as int) =~= j.errors);
}

/// A message as plain values.
pub open spec fn message_view(m: Option<String>) -> Option<Seq<char>> {
    match m {
        Some(x) => Some(x@),
        None => None,
    }
}

/// The restore made of these parts.
pub open spec fn parts_view(
    records: Seq<SessionRecord>,
    current: usize,
    phase: PhaseView,
    counters: RestoreCounters,
    errors: Seq<String>,
) -> RestoreJobView {
    RestoreJobView {
        records: records.map_values(|s: SessionRecord| s@),
        current: current as nat,
        phase: phase,
        created_sessions: counters.created_sessions as nat,
        created_windows: counters.created_windows as nat,
        renamed_sessions: counters.renamed_sessions as nat,
        errors: errors.map_values(|e: String| e@),
    }
}

// ---------------------------------------------------------------------------
// The restore
// ---------------------------------------------------------------------------
fn candidate(base: &String, suffix: Option<usize>) -> (r: String)
    ensures
        r@ == candidate_name(
            base@,
            match suffix {
                Some(k) => Some(k as nat),
                None => None,
            },
        ),
{
    match suffix {
        None => base.clone(),
        Some(k) => {
            let head = concat(base.as_str(), "-restored-");
            concat(head.as_str(), decimal_string(k).as_str())
        },
    }
}

impl RestoreJob {
    #[verifier::type_invariant]
    spec fn inv(self) -> bool {
        job_ok(self@)
    }

    /// A restore of `records`, none handled yet.
    pub fn new(records: Vec<SessionRecord>) -> (r: Self)
        requires
            record_window_total(records@.map_values(|s: SessionRecord| s@)) <= usize::MAX,
        ensures
            r@ == start_view(records@.map_values(|s: SessionRecord| s@)),
            job_ok(r@),
    {
        let phase = if records.len() > 0 {
            RestorePhase::Resolve { suffix: None }
        } else {
            RestorePhase::Finished
        };
        let errors: Vec<String> = Vec::new();
        proof {
            let v = records@.map_values(|s: SessionRecord| s@);
            assert(v.take(0) =~= Seq::<SessionRecordView>::empty());
            assert(errors@.map_values(|e: String| e@) =~= Seq::<Seq<char>>::empty());
        }
        RestoreJob {
            records,
            current: 0,
            phase,
            counters: RestoreCounters { created_sessions: 0, created_windows: 0, renamed_sessions: 0 },
            errors,
        }
    }

    /// What the restore needs done next.
    pub fn request(&self) -> (r: RestoreStep)
        ensures
            r@ == request_view(self@),
    {
        proof {
            use_type_invariant(self);
        }
        match &self.phase {
            RestorePhase::Resolve { suffix } => RestoreStep::CheckSession(
                candidate(&self.records[self.current].name, *suffix),
            ),
            RestorePhase::Create { target } => {
                let rec = &self.records[self.current];
                let dir = if rec.windows.len() == 0 {
                    rec.path.as_str()
                } else {
                    rec.windows[0].path.as_str()
                };
                RestoreStep::Run(create_session_with_path(target.as_str(), dir))
            },
            RestorePhase::ReadBack { target } => RestoreStep::ReadSession(target.clone()),
            RestorePhase::RenameFirst { target, window_index } => {
                let rec = &self.records[self.current];
                RestoreStep::Run(
                    rename_window(target.as_str(), window_index.as_str(), rec.windows[0].name.as_str()),
                )
            },
            RestorePhase::AddWindow { target, window } => {
                let rec = &self.records[self.current];
                RestoreStep::Run(
                    create_window_with_path(
                        target.as_str(),
                        rec.windows[*window].name.as_str(),
                        rec.windows[*window].path.as_str(),
                    ),
                )
            },
            RestorePhase::Finished => RestoreStep::Refresh,
        }
    }

    /// The restore moved on to the next saved session, after the current one was
    /// created with `windows` windows (`error` is `None`) or failed.
    fn finish_record(
        records: Vec<SessionRecord>,
        current: usize,
        counters: RestoreCounters,
        errors: Vec<String>,
        error: Option<String>,
        windows: usize,
        renamed: usize,
    ) -> (r: RestoreJob)
        requires
            current < records.len(),
            ({
                let v = records@.map_values(|s: SessionRecord| s@);
                &&& record_window_total(v) <= usize::MAX
                &&& counters.created_sessions + errors.len() == current
                &&& counters.created_windows <= record_window_total(v.take(current as int))
                &&& renamed <= current + 1
                &&& windows <= v[current as int].windows.len()
                &&& error is Some ==> windows == 0
            }),
        ensures
            ({
                let before = parts_view(
                    records@,
                    current,
                    PhaseView::Finished,
                    RestoreCounters { renamed_sessions: renamed, ..counters },
                    errors@,
                );
                r@ == match error {
                    Some(m) => record_failed(before, m@),
                    None => record_done(before, windows as nat),
                }
            }),
    {
        let ghost v = records@.map_values(|s: SessionRecord| s@);
        proof {
            lemma_total_take(v, current as int);
            lemma_total_grows(v, current as int + 1);
        }
        let next = current + 1;
        let phase = if next < records.len() {
            RestorePhase::Resolve { suffix: None }
        } else {
            RestorePhase::Finished
        };
        match error {
            Some(m) => {
                let mut errors = errors;
                let ghost before = errors@;
                errors.push(m);
                proof {
                    assert(errors@.map_values(|e: String| e@) =~= before.map_values(|e: String| e@).push(
                        m@,
                    ));
                }
                RestoreJob {
                    records,
                    current: next,
                    phase,
                    counters: RestoreCounters {
                        created_sessions: counters.created_sessions,
                        created_windows: counters.created_windows,
                        renamed_sessions: renamed,
                    },
                    errors,
                }
            },
            None => RestoreJob {
                records,
                current: next,
                phase,
                counters: RestoreCounters {
                    created_sessions: counters.created_sessions + 1,
                    created_windows: counters.created_windows + windows,
                    renamed_sessions: renamed,
                },
                errors,
            },
        }
    }

    /// The restore after `event`, and the message when the restore stops altogether.
    pub fn advance(self, event: RestoreEvent) -> (r: (RestoreJob, Option<String>))
        ensures
            (r.0@, message_view(r.1)) == transition(self@, event@),
            job_ok(r.0@),
    {
        proof {
            use_type_invariant(&self);
        }
        let RestoreJob { records, current, phase, counters, errors } = self;
        let out = match phase {
            RestorePhase::Resolve { suffix } => Self::advance_resolve(
                records,
                current,
                suffix,
                counters,
                errors,
                event,
            ),
            RestorePhase::Create { target } => Self::advance_create(
                records,
                current,
                target,
                counters,
                errors,
                event,
            ),
            RestorePhase::ReadBack { target } => Self::advance_read_back(
                records,
                current,
                target,
                counters,
                errors,
                event,
            ),
            RestorePhase::RenameFirst { target, window_index } => Self::advance_rename_first(
                records,
                current,
                target,
                window_index,
                counters,
                errors,
                event,
            ),
            RestorePhase::AddWindow { target, window } => Self::advance_add_window(
                records,
                current,
                target,
                window,
                counters,
                errors,
                event,
            ),
            RestorePhase::Finished => (
                RestoreJob { records, current, phase: RestorePhase::Finished, counters, errors },
                None,
            ),
        };
        proof {
            use_type_invariant(&out.0);
        }
        out
    }

    fn advance_resolve(
        records: Vec<SessionRecord>,
        current: usize,
        suffix: Option<usize>,
        counters: RestoreCounters,
        errors: Vec<String>,
        event: RestoreEvent,
    ) -> (r: (RestoreJob, Option<String>))
        requires
            job_ok(
                parts_view(records@, current, RestorePhase::Resolve { suffix }@, counters, errors@),
            ),
        ensures
            (r.0@, message_view(r.1)) == transition(
                parts_view(records@, current, RestorePhase::Resolve { suffix }@, counters, errors@),
                event@,
            ),
    {
        match event {
            RestoreEvent::Checked(Err(m)) => {
                let head = concat3(
                    "Restore failed while resolving session ",
                    records[current].name.as_str(),
                    ": ",
                );
                let message = concat(head.as_str(), m.as_str());
                (
                    RestoreJob { records, current, phase: RestorePhase::Resolve { suffix }, counters, errors },
                    Some(message),
                )
            },
            RestoreEvent::Checked(Ok(true)) => {
                let next = match suffix {
                    None => 2,
                    Some(k) => if k < usize::MAX {
                        k + 1
                    } else {
                        k
                    },
                };
                (
                    RestoreJob {
                        records,
                        current,
                        phase: RestorePhase::Resolve { suffix: Some(next) },
                        counters,
                        errors,
                    },
                    None,
                )
            },
            RestoreEvent::Checked(Ok(false)) => {
                let target = candidate(&records[current].name, suffix);
                let renamed = match suffix {
                    Some(_) => counters.renamed_sessions + 1,
                    None => counters.renamed_sessions,
                };
                (
                    RestoreJob {
                        records,
                        current,
                        phase: RestorePhase::Create { target },
                        counters: RestoreCounters {
                            created_sessions: counters.created_sessions,
                            created_windows: counters.created_windows,
                            renamed_sessions: renamed,
                        },
                        errors,
                    },
                    None,
                )
            },
            _ => (
                RestoreJob { records, current, phase: RestorePhase::Resolve { suffix }, counters, errors },
                None,
            ),
        }
    }

    fn advance_create(
        records: Vec<SessionRecord>,
        current: usize,
        target: String,
        counters: RestoreCounters,
        errors: Vec<String>,
        event: RestoreEvent,
    ) -> (r: (RestoreJob, Option<String>))
        requires
            job_ok(
                parts_view(records@, current, RestorePhase::Create { target }@, counters, errors@),
            ),
        ensures
            (r.0@, message_view(r.1)) == transition(
                parts_view(records@, current, RestorePhase::Create { target }@, counters, errors@),
                event@,
            ),
    {
        match event {
            RestoreEvent::Ran(Err(_)) => {
                let message = concat3("session ", target.as_str(), ": create failed");
                let renamed = counters.renamed_sessions;
                (Self::finish_record(records, current, counters, errors, Some(message), 0, renamed), None)
            },
            RestoreEvent::Ran(Ok(())) => {
                if records[current].windows.len() == 0 {
                    let renamed = counters.renamed_sessions;
                    (Self::finish_record(records, current, counters, errors, None, 0, renamed), None)
                } else {
                    (
                        RestoreJob { records, current, phase: RestorePhase::ReadBack { target }, counters, errors },
                        None,
                    )
                }
            },
            _ => (
                RestoreJob { records, current, phase: RestorePhase::Create { target }, counters, errors },
                None,
            ),
        }
    }

    fn advance_read_back(
        records: Vec<SessionRecord>,
        current: usize,
        target: String,
        counters: RestoreCounters,
        errors: Vec<String>,
        event: RestoreEvent,
    ) -> (r: (RestoreJob, Option<String>))
        requires
            job_ok(
                parts_view(records@, current, RestorePhase::ReadBack { target }@, counters, errors@),
            ),
        ensures
            (r.0@, message_view(r.1)) == transition(
                parts_view(records@, current, RestorePhase::ReadBack { target }@, counters, errors@),
                event@,
            ),
    {
        match event {
            RestoreEvent::Read(Err(_)) => {
                let message = concat3("session ", target.as_str(), ": read after create failed");
                let renamed = counters.renamed_sessions;
                (Self::finish_record(records, current, counters, errors, Some(message), 0, renamed), None)
            },
            RestoreEvent::Read(Ok(s)) => {
                if s.windows.len() == 0 {
                    let message = concat3("session ", target.as_str(), ": created with no windows");
                    let renamed = counters.renamed_sessions;
                    (Self::finish_record(records, current, counters, errors, Some(message), 0, renamed), None)
                } else {
                    let window_index = s.windows[0].index.clone();
                    (
                        RestoreJob {
                            records,
                            current,
                            phase: RestorePhase::RenameFirst { target, window_index },
                            counters,
                            errors,
                        },
                        None,
                    )
                }
            },
            _ => (
                RestoreJob { records, current, phase: RestorePhase::ReadBack { target }, counters, errors },
                None,
            ),
        }
    }

    fn advance_rename_first(
        records: Vec<SessionRecord>,
        current: usize,
        target: String,
        window_index: String,
        counters: RestoreCounters,
        errors: Vec<String>,
        event: RestoreEvent,
    ) -> (r: (RestoreJob, Option<String>))
        requires
            job_ok(
                parts_view(
                    records@,
                    current,
                    RestorePhase::RenameFirst { target, window_index }@,
                    counters,
                    errors@,
                ),
            ),
        ensures
            (r.0@, message_view(r.1)) == transition(
                parts_view(
                    records@,
                    current,
                    RestorePhase::RenameFirst { target, window_index }@,
                    counters,
                    errors@,
                ),
                event@,
            ),
    {
        match event {
            RestoreEvent::Ran(Err(_)) => {
                let message = concat3("session ", target.as_str(), ": rename first window failed");
                let renamed = counters.renamed_sessions;
                (Self::finish_record(records, current, counters, errors, Some(message), 0, renamed), None)
            },
            RestoreEvent::Ran(Ok(())) => {
                if records[current].windows.len() == 1 {
                    let renamed = counters.renamed_sessions;
                    (Self::finish_record(records, current, counters, errors, None, 1, renamed), None)
                } else {
                    (
                        RestoreJob {
                            records,
                            current,
                            phase: RestorePhase::AddWindow { target, window: 1 },
                            counters,
                            errors,
                        },
                        None,
                    )
                }
            },
            _ => (
                RestoreJob {
                    records,
                    current,
                    phase: RestorePhase::RenameFirst { target, window_index },
                    counters,
                    errors,
                },
                None,
            ),
        }
    }

    fn advance_add_window(
        records: Vec<SessionRecord>,
        current: usize,
        target: String,
        window: usize,
        counters: RestoreCounters,
        errors: Vec<String>,
        event: RestoreEvent,
    ) -> (r: (RestoreJob, Option<String>))
        requires
            job_ok(
                parts_view(
                    records@,
                    current,
                    RestorePhase::AddWindow { target, window }@,
                    counters,
                    errors@,
                ),
            ),
        ensures
            (r.0@, message_view(r.1)) == transition(
                parts_view(
                    records@,
                    current,
                    RestorePhase::AddWindow { target, window }@,
                    counters,
                    errors@,
                ),
                event@,
            ),
    {
        match event {
            RestoreEvent::Ran(Err(m)) => {
                let head = concat3("session ", target.as_str(), ": create window ");
                let middle = concat3(
                    head.as_str(),
                    records[current].windows[window].name.as_str(),
                    " failed: ",
                );
                let message = concat(middle.as_str(), m.as_str());
                let renamed = counters.renamed_sessions;
                (Self::finish_record(records, current, counters, errors, Some(message), 0, renamed), None)
            },
            RestoreEvent::Ran(Ok(())) => {
                let count = records[current].windows.len();
                if window + 1 == count {
                    let renamed = counters.renamed_sessions;
                    (Self::finish_record(records, current, counters, errors, None, count, renamed), None)
                } else {
                    (
                        RestoreJob {
                            records,
                            current,
                            phase: RestorePhase::AddWindow { target, window: window + 1 },
                            counters,
                            errors,
                        },
                        None,
                    )
                }
            },
            _ => (
                RestoreJob {
                    records,
                    current,
                    phase: RestorePhase::AddWindow { target, window },
                    counters,
                    errors,
                },
                None,
            ),
        }
    }

    /// The message that ends the restore.
    pub fn summary(&self) -> (r: StatusLine)
        ensures
            r.message@ == restore_summary(self@).0,
            r.is_error == restore_summary(self@).1,
    {
        let tail_a = concat3("created ", decimal_string(self.counters.created_sessions).as_str(), " sessions and ");
        let tail_b = concat3(
            tail_a.as_str(),
            decimal_string(self.counters.created_windows).as_str(),
            " windows, renamed ",
        );
        let tail = concat3(
            tail_b.as_str(),
            decimal_string(self.counters.renamed_sessions).as_str(),
            " duplicate sessions",
        );
        if self.errors.len() == 0 {
            StatusLine { message: concat("Restore complete: ", tail.as_str()), is_error: false }
        } else {
            let head = concat3(
                "Restore finished with ",
                decimal_string(self.errors.len()).as_str(),
                " errors: ",
            );
            let middle = concat3(head.as_str(), self.errors[0].as_str(), "; ");
            StatusLine { message: concat(middle.as_str(), tail.as_str()), is_error: true }
        }
    }
}

} // verus!

verus! {

/// The question asked before a restore of `sessions` sessions and `windows` windows.
pub open spec fn restore_prompt_text(sessions: nat, windows: nat) -> Seq<char> {
    "This will restore "@ + decimal(sessions) + " sessions and "@ + decimal(windows)
        + " windows. Press y/Enter to continue, n/Esc to cancel"@
}

/// `app` with no restore in progress.
pub open spec fn without_restore(app: App) -> App {
    App { restore_job: None, ..app }
}

/// Whether the saved sessions read hold no more windows than a `usize` counts.
pub open spec fn loaded_fits(loaded: Result<SessionBackupFile, String>) -> bool {
    match loaded {
        Ok(f) => record_window_total(f@) <= usize::MAX,
        Err(_) => true,
    }
}

impl App {
    /// Starts a restore: first read the saved sessions, to ask before creating them.
    pub fn restore_sessions(&mut self) -> (r: Effect)
        ensures
            *final(self) == *old(self),
            r is LoadRestorePrompt,
    {
        Effect::LoadRestorePrompt
    }

    /// Asks before restoring the saved sessions read, saying how many sessions and
    /// windows they hold; reports a failed read.
    pub fn restore_prompt(&mut self, loaded: Result<SessionBackupFile, String>)
        requires
            loaded_fits(loaded),
        ensures
            match loaded {
                Ok(f) => crate::app::input::only_modal_changed(*old(self), *final(self))
                    && crate::app::input::confirm_modal_is(
                    final(self).state.modal,
                    "Confirm restore"@,
                    restore_prompt_text(f@.len(), record_window_total(f@) as nat),
                    ConfirmAction::RunSessionRestore,
                ),
                Err(e) => crate::app::input::only_status_changed(*old(self), *final(self))
                    && status_is(final(self).state.status, "Restore failed: "@ + e@, true),
            },
    {
        match loaded {
            Err(e) => {
                let message = concat("Restore failed: ", e.as_str());
                self.set_error_status(message.as_str());
            },
            Ok(f) => {
                let records = f.sessions();
                let sessions = records.len();
                proof {
                    assert(records@.map_values(|s: SessionRecord| s@).len() == f@.len());
                }
                let windows = match f.window_total() {
                    Some(n) => n,
                    None => 0,
                };
                let head = concat3("This will restore ", decimal_string(sessions).as_str(), " sessions and ");
                let prompt = concat3(
                    head.as_str(),
                    decimal_string(windows).as_str(),
                    " windows. Press y/Enter to continue, n/Esc to cancel",
                );
                self.state.modal = Some(
                    Modal::Confirm {
                        title: String::from_str("Confirm restore"),
                        prompt,
                        action: ConfirmAction::RunSessionRestore,
                    },
                );
            },
        }
    }

    /// Runs a confirmed restore: read the saved sessions and create them.
    pub fn perform_restore_sessions(&mut self) -> (r: Effect)
        ensures
            *final(self) == *old(self),
            r is RunRestore,
    {
        Effect::RunRestore
    }

    /// Starts restoring the saved sessions read; reports a failed read.
    pub fn start_restore(&mut self, loaded: Result<SessionBackupFile, String>)
        requires
            loaded_fits(loaded),
        ensures
            match loaded {
                Ok(f) => {
                    &&& final(self).state == old(self).state
                    &&& final(self).preview == old(self).preview
                    &&& final(self).restore_job matches Some(j) && j@ == start_view(f@)
                },
                Err(e) => crate::app::input::only_status_changed(*old(self), *final(self))
                    && status_is(final(self).state.status, "Restore failed: "@ + e@, true),
            },
    {
        match loaded {
            Err(e) => {
                let message = concat("Restore failed: ", e.as_str());
                self.set_error_status(message.as_str());
            },
            Ok(f) => {
                let records = f.into_records();
                self.restore_job = Some(RestoreJob::new(records));
            },
        }
    }

    /// What the restore in progress needs done next.
    pub fn restore_step(&self) -> (r: RestoreStep)
        ensures
            match self.restore_job {
                None => r is Idle,
                Some(j) => r@ == request_view(j@),
            },
    {
        match &self.restore_job {
            None => RestoreStep::Idle,
            Some(j) => j.request(),
        }
    }

    /// Takes in what came of a restore step. When the restore stops altogether, the
    /// reason is reported and the restore is dropped.
    pub fn restore_event(&mut self, event: RestoreEvent)
        ensures
            match old(self).restore_job {
                None => *final(self) == *old(self),
                Some(j) => {
                    let (next, stop) = transition(j@, event@);
                    match stop {
                        Some(m) => {
                            &&& final(self).restore_job is None
                            &&& final(self).state == old(self).state.with_status(
                                final(self).state.status,
                            )
                            &&& final(self).preview == old(self).preview
                            &&& status_is(final(self).state.status, m, true)
                        },
                        None => {
                            &&& final(self).restore_job matches Some(k) && k@ == next
                            &&& final(self).state == old(self).state
                            &&& final(self).preview == old(self).preview
                        },
                    }
                },
            },
    {
        let job = match self.restore_job.take() {
            None => return ,
            Some(j) => j,
        };
        let (next, stop) = job.advance(event);
        match stop {
            Some(m) => {
                self.state.status = Some(StatusLine { message: m, is_error: true });
            },
            None => {
                self.restore_job = Some(next);
            },
        }
    }

    /// Finishes the restore once every saved session has been handled: takes in the
    /// sessions read again, then says what the restore did.
    pub fn restore_refreshed(&mut self, outcome: Result<RefreshOutcome, String>) -> (r: Effect)
        ensures
            match old(self).restore_job {
                None => App::refresh_done(*old(self), outcome, None, *final(self), r),
                Some(j) => {
                    &&& final(self).restore_job is None
                    &&& status_is(
                        final(self).state.status,
                        restore_summary(j@).0,
                        restore_summary(j@).1,
                    )
                    &&& exists|mid: App|
                        #[trigger] App::refresh_done(
                            without_restore(*old(self)),
                            outcome,
                            None,
                            mid,
                            r,
                        ) && *final(self) == (App {
                            state: mid.state.with_status(final(self).state.status),
                            ..mid
                        })
                },
            },
    {
        let job = self.restore_job.take();
        let effect = self.refresh_sessions(outcome, None);
        if let Some(j) = job {
            let ghost mid = *self;
            self.state.status = Some(j.summary());
            assert(App::refresh_done(
                without_restore(*old(self)),
                outcome,
                None,
                mid,
                effect,
            ));
        }
        effect
    }
}

} // verus!
