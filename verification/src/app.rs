//! The dashboard: its state and the decisions taken on keys and on what tmux answers.
//!
//! The dashboard never runs anything itself. Each decision returns an [`Effect`]: the
//! work to do (asking tmux, reading or writing the saved sessions), and the method to
//! hand its outcome to.
pub mod actions;
pub mod backup;
pub mod input;
pub mod restore;
pub mod state;

use vstd::prelude::*;

use crate::app::actions::{action_for_key, key_action, Action, Key};
use crate::app::backup::SessionBackupFile;
use crate::app::restore::RestoreJob;
use crate::app::state::{kept_names, State, StatusLine, TreeSelection};
use crate::text::{chars_of, concat, decimal, decimal_string, is_blank, trim};
use crate::tmux::command::TmuxCommand;
use crate::tmux::session::Session;

verus! {

/// The counters that order preview requests and their results.
pub struct PreviewSequence {
    /// The number of the last request sent.
    pub request_seq: u64,
    /// The number of the last result shown.
    pub latest_applied_seq: u64,
}

/// A request for the preview of a session, or of one of its windows.
pub struct PreviewRequest {
    pub seq: u64,
    pub session_name: String,
    pub window_index: Option<String>,
}

/// What the preview worker produced for a request.
pub struct PreviewResult {
    pub seq: u64,
    pub output: String,
    pub is_error: bool,
}

/// The sessions read by a refresh, and the names of those that could not be read.
#[derive(Debug)]
pub struct RefreshOutcome {
    pub sessions: Vec<Session>,
    pub skipped_sessions: Vec<String>,
}

/// What to do once a tmux command has succeeded and the sessions are read again:
/// select something by name, and say something.
pub struct FollowUp {
    pub select: Option<TreeSelection>,
    pub message: String,
}

/// The work that a decision leaves to be done.
pub enum Effect {
    /// Nothing to do.
    Nothing,
    /// Leave the dashboard.
    Quit,
    /// Read the sessions, then hand the outcome and the follow-up to
    /// [`App::refresh_sessions`].
    Refresh(Option<FollowUp>),
    /// Send the request to the preview worker; if it cannot be sent, call
    /// [`App::preview_unavailable`].
    Preview(PreviewRequest),
    /// Attach to the session (and window), then hand the outcome to
    /// [`App::attach_finished`].
    Attach { session_name: String, window_index: Option<String> },
    /// Run the command, then hand its outcome and `then` to [`App::command_finished`].
    Run { command: TmuxCommand, then: FollowUp },
    /// Check whether the saved sessions exist, then hand the answer to
    /// [`App::export_checked`].
    CheckExportFile,
    /// Write the saved sessions, then hand the outcome (the file's path) to
    /// [`App::export_written`].
    WriteExport(SessionBackupFile),
    /// Read the saved sessions, then hand them to [`App::restore_prompt`].
    LoadRestorePrompt,
    /// Read the saved sessions, then hand them to [`App::start_restore`] and carry out
    /// the steps of [`App::restore_step`].
    RunRestore,
}

/// The dashboard.
pub struct App {
    pub state: State,
    /// The preview counters, once the preview worker runs.
    pub preview: Option<PreviewSequence>,
    /// The restore in progress.
    pub restore_job: Option<RestoreJob>,
}

/// Whether a status line says `message`, as an error or not.
pub open spec fn status_is(status: Option<StatusLine>, message: Seq<char>, is_error: bool) -> bool {
    status matches Some(s) && s.message@ == message && s.is_error == is_error
}

/// The message after reading `count` sessions, `skipped` of which could not be read.
pub open spec fn refresh_message(count: nat, skipped: nat) -> (Seq<char>, bool) {
    if skipped > 0 {
        ("Loaded "@ + decimal(count) + " sessions, skipped "@ + decimal(skipped), true)
    } else if count == 0 {
        ("No tmux sessions"@, false)
    } else {
        ("Loaded "@ + decimal(count) + " sessions"@, false)
    }
}

/// Whether asking for a preview, with state `s0` and counters `p0`, led to state `s1`,
/// counters `p1` and request `r`: nothing without a worker; the preview saying that
/// nothing is selected without a selection; else a request for the selected session
/// and window, numbered one past the last (the numbering stops at the largest `u64`).
pub open spec fn preview_request_made(
    s0: State,
    p0: Option<PreviewSequence>,
    s1: State,
    p1: Option<PreviewSequence>,
    r: Option<PreviewRequest>,
) -> bool {
            match p0 {
                None => r is None && s1 == s0 && p1
                    == p0,
                Some(p) => match s0.selected_index() {
                    None => {
                        &&& r is None
                        &&& p1 == p0
                        &&& s1 == (State {
                            preview: s1.preview,
                            preview_is_error: false,
                            ..s0
                        })
                        &&& s1.preview@ == "No selection"@
                    },
                    Some(i) => {
                        let seq = if p.request_seq == u64::MAX {
                            u64::MAX
                        } else {
                            (p.request_seq + 1) as u64
                        };
                        &&& s1 == s0
                        &&& p1 == Some(
                            PreviewSequence { request_seq: seq, ..p },
                        )
                        &&& r matches Some(req) && req.seq == seq && req.session_name@
                            == s0.sessions@[i].name@ && match s0.selected_window_position() {
                            Some((si, w)) => req.window_index matches Some(x) && x@
                                == s0.sessions@[si].windows@[w].index@,
                            None => req.window_index is None,
                        }
                    },
                },
            }
}

/// The preview request that an effect carries.
pub open spec fn effect_request(e: Effect) -> Option<PreviewRequest> {
    match e {
        Effect::Preview(q) => Some(q),
        _ => None,
    }
}

impl App {
    /// A dashboard with no sessions, no preview worker and no restore in progress.
    pub fn new() -> (r: Self)
        ensures
            r.state.initial(),
            r.state.wf(),
            r.preview is None,
            r.restore_job is None,
    {
        App { state: State::default(), preview: None, restore_job: None }
    }

    /// The action bound to a key.
    pub fn action_from_key(key: Key, control: bool) -> (r: Option<Action>)
        ensures
            r == key_action(key, control),
    {
        action_for_key(key, control)
    }

    /// Shows `message` in the status line.
    pub fn set_status(&mut self, message: &str)
        ensures
            final(self).state == old(self).state.with_status(final(self).state.status),
            status_is(final(self).state.status, message@, false),
            final(self).preview == old(self).preview,
            final(self).restore_job == old(self).restore_job,
    {
        self.state.status = Some(StatusLine { message: String::from_str(message), is_error: false });
    }

    /// Shows `message` in the status line, as an error.
    pub fn set_error_status(&mut self, message: &str)
        ensures
            final(self).state == old(self).state.with_status(final(self).state.status),
            status_is(final(self).state.status, message@, true),
            final(self).preview == old(self).preview,
            final(self).restore_job == old(self).restore_job,
    {
        self.state.status = Some(StatusLine { message: String::from_str(message), is_error: true });
    }

    // -----------------------------------------------------------------------
    // Previews
    // -----------------------------------------------------------------------
    /// Starts counting preview requests, for a worker that has just started.
    pub fn start_preview(&mut self)
        ensures
            final(self).preview == Some(PreviewSequence { request_seq: 0, latest_applied_seq: 0 }),
            final(self).state == old(self).state,
            final(self).restore_job == old(self).restore_job,
    {
        self.preview = Some(PreviewSequence { request_seq: 0, latest_applied_seq: 0 });
    }

    /// Stops counting preview requests, for a worker that has stopped.
    pub fn stop_preview(&mut self)
        ensures
            final(self).preview is None,
            final(self).state == old(self).state,
            final(self).restore_job == old(self).restore_job,
    {
        self.preview = None;
    }

    /// The request for a preview of the selection, numbered one past the last. Without
    /// a worker nothing happens; without a selection the preview says so.
    pub fn request_preview_refresh(&mut self) -> (r: Option<PreviewRequest>)
        ensures
            final(self).restore_job == old(self).restore_job,
            preview_request_made(
                old(self).state,
                old(self).preview,
                final(self).state,
                final(self).preview,
                r,
            ),
    {
        let p = match &self.preview {
            None => return None,
            Some(p) => PreviewSequence {
                request_seq: p.request_seq,
                latest_applied_seq: p.latest_applied_seq,
            },
        };
        let session_name = match self.state.selected_session_name() {
            None => {
                self.state.preview = String::from_str("No selection");
                self.state.preview_is_error = false;
                return None;
            },
            Some(name) => String::from_str(name),
        };
        let seq = p.request_seq.saturating_add(1);
        let window_index = match self.state.selected_window_index() {
            Some(w) => Some(String::from_str(w)),
            None => None,
        };
        self.preview = Some(PreviewSequence { request_seq: seq, latest_applied_seq: p.latest_applied_seq });
        Some(PreviewRequest { seq, session_name, window_index })
    }

    /// The effect of asking for a preview of the selection.
    fn preview_effect(&mut self) -> (r: Effect)
        ensures
            final(self).restore_job == old(self).restore_job,
            final(self).state == (State {
                preview: final(self).state.preview,
                preview_is_error: final(self).state.preview_is_error,
                ..old(self).state
            }),
            preview_request_made(
                old(self).state,
                old(self).preview,
                final(self).state,
                final(self).preview,
                effect_request(r),
            ),
            r is Nothing || r is Preview,
    {
        match self.request_preview_refresh() {
            Some(req) => Effect::Preview(req),
            None => Effect::Nothing,
        }
    }

    /// The preview worker is gone: the preview says so.
    pub fn preview_unavailable(&mut self)
        ensures
            final(self).state == (State {
                preview: final(self).state.preview,
                preview_is_error: true,
                ..old(self).state
            }),
            final(self).state.preview@ == "Preview unavailable: worker disconnected"@,
            final(self).preview == old(self).preview,
            final(self).restore_job == old(self).restore_job,
    {
        self.state.preview = String::from_str("Preview unavailable: worker disconnected");
        self.state.preview_is_error = true;
    }

    /// Shows a preview result unless a later one has been shown already.
    pub fn apply_preview_result(&mut self, result: PreviewResult)
        ensures
            final(self).restore_job == old(self).restore_job,
            match old(self).preview {
                Some(p) => if result.seq >= p.latest_applied_seq {
                    &&& final(self).preview == Some(
                        PreviewSequence { latest_applied_seq: result.seq, ..p },
                    )
                    &&& final(self).state == (State {
                        preview: result.output,
                        preview_is_error: result.is_error,
                        ..old(self).state
                    })
                } else {
                    final(self).preview == old(self).preview && final(self).state == old(self).state
                },
                None => final(self).preview == old(self).preview && final(self).state == old(
                    self,
                ).state,
            },
    {
        let p = match &self.preview {
            None => return ,
            Some(p) => PreviewSequence {
                request_seq: p.request_seq,
                latest_applied_seq: p.latest_applied_seq,
            },
        };
        if result.seq >= p.latest_applied_seq {
            self.preview = Some(PreviewSequence { request_seq: p.request_seq, latest_applied_seq: result.seq });
            self.state.preview = result.output;
            self.state.preview_is_error = result.is_error;
        }
    }

    // -----------------------------------------------------------------------
    // Refreshing
    // -----------------------------------------------------------------------
    /// The outcome of reading the sessions.
    pub fn fetch_sessions(listing: Result<Vec<Session>, String>) -> (r: Result<RefreshOutcome, String>)
        ensures
            match listing {
                Ok(v) => r matches Ok(o) && o.sessions == v && o.skipped_sessions@.len() == 0,
                Err(e) => r == Err::<RefreshOutcome, String>(e),
            },
    {
        match listing {
            Ok(sessions) => Ok(RefreshOutcome { sessions, skipped_sessions: Vec::new() }),
            Err(e) => Err(e),
        }
    }

    /// Whether taking in the outcome of reading the sessions, and then the follow-up,
    /// took `before` to `after` with effect `r`.
    pub open spec fn refresh_done(
        before: App,
        outcome: Result<RefreshOutcome, String>,
        then: Option<FollowUp>,
        after: App,
        r: Effect,
    ) -> bool {
            &&& after.restore_job == before.restore_job
            &&& match outcome {
                Err(e) => {
                    &&& after.preview == before.preview
                    &&& r is Nothing
                    &&& match then {
                        None => {
                            &&& after.state == before.state.with_status(
                                after.state.status,
                            )
                            &&& status_is(after.state.status, "Refresh failed: "@ + e@, true)
                        },
                        Some(f) => after.state == State::followed(before.state, f),
                    }
                },
                Ok(o) => {
                    let replaced = State::replaced(
                        before.state,
                        o.sessions,
                        after.state.expanded_sessions,
                    );
                    &&& after.state.expanded() == kept_names(
                        before.state.expanded(),
                        o.sessions@,
                    )
                    &&& after.state.wf()
                    &&& (r is Nothing || r is Preview)
                    &&& preview_request_made(
                        replaced,
                        before.preview,
                        replaced.with_preview(
                            after.state.preview,
                            after.state.preview_is_error,
                        ),
                        after.preview,
                        effect_request(r),
                    )
                    &&& match then {
                        None => {
                            &&& after.state == replaced.with_preview(
                                after.state.preview,
                                after.state.preview_is_error,
                            ).with_status(after.state.status)
                            &&& status_is(
                                after.state.status,
                                refresh_message(o.sessions@.len(), o.skipped_sessions@.len()).0,
                                refresh_message(o.sessions@.len(), o.skipped_sessions@.len()).1,
                            )
                        },
                        Some(f) => after.state == State::followed(
                            replaced.with_preview(
                                after.state.preview,
                                after.state.preview_is_error,
                            ),
                            f,
                        ),
                    }
                },
            }
    }

    /// Takes in the sessions read: replaces them, asks for a preview, and says how many
    /// were loaded, or that the read failed; then, when there is a follow-up, selects
    /// what it names and says its message.
    pub fn refresh_sessions(
        &mut self,
        outcome: Result<RefreshOutcome, String>,
        then: Option<FollowUp>,
    ) -> (r: Effect)
        ensures
            App::refresh_done(*old(self), outcome, then, *final(self), r),
    {
        match outcome {
            Err(e) => {
                let message = concat("Refresh failed: ", e.as_str());
                self.state.status = Some(StatusLine { message, is_error: true });
                if let Some(f) = then {
                    self.apply_follow_up(f);
                }
                Effect::Nothing
            },
            Ok(o) => {
                let count = o.sessions.len();
                let skipped = o.skipped_sessions.len();
                self.state.set_sessions(o.sessions);
                let effect = self.preview_effect();
                if skipped > 0 {
                    let head = concat3_owned("Loaded ", decimal_string(count), " sessions, skipped ");
                    let message = concat(head.as_str(), decimal_string(skipped).as_str());
                    self.state.status = Some(StatusLine { message, is_error: true });
                } else if count == 0 {
                    self.state.status = Some(
                        StatusLine { message: String::from_str("No tmux sessions"), is_error: false },
                    );
                } else {
                    let message = concat3_owned("Loaded ", decimal_string(count), " sessions");
                    self.state.status = Some(StatusLine { message, is_error: false });
                }
                if let Some(f) = then {
                    self.apply_follow_up(f);
                }
                effect
            },
        }
    }

    /// Selects what a follow-up names and says its message.
    fn apply_follow_up(&mut self, f: FollowUp)
        ensures
            final(self).state == State::followed(old(self).state, f),
            old(self).state.wf() ==> final(self).state.wf(),
            final(self).preview == old(self).preview,
            final(self).restore_job == old(self).restore_job,
    {
        match &f.select {
            Some(TreeSelection::Session { name }) => self.state.select_session_by_name(name.as_str()),
            Some(TreeSelection::Window { session_name, window_index }) => self.state.select_window_by_identity(
                session_name.as_str(),
                window_index.as_str(),
            ),
            None => {},
        }
        self.state.status = Some(StatusLine { message: f.message, is_error: false });
    }

    /// The preview worker's result for a request: the captured text, `(empty output)`
    /// when it is blank, or the failure.
    pub fn preview_result(seq: u64, capture: Result<String, String>) -> (r: PreviewResult)
        ensures
            r.seq == seq,
            match capture {
                Ok(t) => !r.is_error && if trim(t@).len() == 0 {
                    r.output@ == "(empty output)"@
                } else {
                    r.output == t
                },
                Err(e) => r.is_error && r.output@ == "Preview unavailable: "@ + e@,
            },
    {
        match capture {
            Ok(t) => {
                if is_blank(&chars_of(t.as_str())) {
                    PreviewResult { seq, output: String::from_str("(empty output)"), is_error: false }
                } else {
                    PreviewResult { seq, output: t, is_error: false }
                }
            },
            Err(e) => PreviewResult {
                seq,
                output: concat("Preview unavailable: ", e.as_str()),
                is_error: true,
            },
        }
    }
}

/// `a`, then `b`, then `c`.
fn concat3_owned(a: &str, b: String, c: &str) -> (r: String)
    ensures
        r@ == a@ + b@ + c@,
{
    crate::text::concat3(a, b.as_str(), c)
}

impl State {
    /// This state with another status line.
    pub open spec fn with_status(self, status: Option<StatusLine>) -> State {
        State { status: status, ..self }
    }

    /// This state after a follow-up: what it names selected, and its message shown.
    pub open spec fn followed(self, f: FollowUp) -> State {
        let selected = match f.select {
            None => self,
            Some(TreeSelection::Session { name }) => self.selected_by_name(name@),
            Some(TreeSelection::Window { session_name, window_index }) => self.selected_by_identity(
                session_name@,
                window_index@,
            ),
        };
        selected.with_status(Some(StatusLine { message: f.message, is_error: false }))
    }
}

} // verus!
