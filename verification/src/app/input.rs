//! What the dashboard does on actions and keys.
use vstd::prelude::*;

use crate::app::actions::{key_action, Action, Key};
use crate::app::backup::{saved_form, SessionBackupFile};
use crate::app::state::{ConfirmAction, FocusRegion, InputAction, Modal, State, TreeSelection};
use crate::app::{effect_request, preview_request_made, status_is, App, Effect, FollowUp};
use crate::text::{chars_of, concat, concat3, pop_char, push_char, trim, trimmed_string};
use crate::tmux::command::{
    close_session, close_session_command, close_window, close_window_command, create_session,
    create_session_command, create_window, create_window_command, rename_session,
    rename_session_command, rename_window, rename_window_command, window_target,
};
use crate::tmux::session::Session;

verus! {

/// Whether `m` is an input dialog titled `title`, empty, for `action`.
pub open spec fn input_modal_is(m: Option<Modal>, title: Seq<char>, action: InputAction) -> bool {
    m matches Some(Modal::Input { title: t, value: v, action: a }) && t@ == title && v@
        == Seq::<char>::empty() && a == action
}

/// Whether `m` is a confirmation titled `title`, asking `prompt`, for `action`.
pub open spec fn confirm_modal_is(
    m: Option<Modal>,
    title: Seq<char>,
    prompt: Seq<char>,
    action: ConfirmAction,
) -> bool {
    m matches Some(Modal::Confirm { title: t, prompt: p, action: a }) && t@ == title && p@ == prompt
        && a == action
}

/// The question asked before closing.
pub open spec fn close_prompt() -> Seq<char> {
    "Press y/Enter to confirm, n/Esc to cancel"@
}

/// Whether `after` is `before` with a new dialog and nothing else changed.
pub open spec fn only_modal_changed(before: App, after: App) -> bool {
    &&& after.state == (State { modal: after.state.modal, ..before.state })
    &&& after.preview == before.preview
    &&& after.restore_job == before.restore_job
}

/// Whether `after` is `before` with a new status line and nothing else changed.
pub open spec fn only_status_changed(before: App, after: App) -> bool {
    &&& after.state == before.state.with_status(after.state.status)
    &&& after.preview == before.preview
    &&& after.restore_job == before.restore_job
}

/// Whether a tree action turned `before` into `after`.
pub open spec fn tree_action_done(action: Action, before: State, after: State) -> bool {
    match action {
        Action::MoveUp => after == before.moved_up(),
        Action::MoveDown => after == before.moved_down(),
        Action::Select => after == before.cycled_window(),
        Action::Expand => State::expanded_from(before, after),
        Action::Collapse => State::collapsed_from(before, after),
        Action::ToggleExpand => State::toggled_from(before, after),
        _ => false,
    }
}

/// Whether an action moves or folds the tree.
pub open spec fn is_tree_action(action: Action) -> bool {
    action == Action::MoveUp || action == Action::MoveDown || action == Action::Select || action
        == Action::Expand || action == Action::Collapse || action == Action::ToggleExpand
}

/// Whether the tree action `action` took `before` to `after` with effect `r`: with the
/// tree focused, the action, then a preview request; otherwise nothing.
pub open spec fn tree_focus_done(action: Action, before: App, after: App, r: Effect) -> bool {
    if before.state.focus == FocusRegion::Tree {
        let moved = after.state.with_preview(before.state.preview, before.state.preview_is_error);
        &&& tree_action_done(action, before.state, moved)
        &&& preview_request_made(moved, before.preview, after.state, after.preview, effect_request(r))
        &&& (r is Nothing || r is Preview)
        &&& after.restore_job == before.restore_job
    } else {
        after == before && r is Nothing
    }
}

/// Whether starting `action` (create, rename or close) took `before` to `after`: the
/// dialog it needs, or an error when it needs a selected session and there is none.
pub open spec fn action_started(action: Action, before: App, after: App) -> bool {
    let st = before.state;
    match action {
        Action::CreateSession => only_modal_changed(before, after) && input_modal_is(
            after.state.modal,
            "Create session"@,
            InputAction::CreateSession,
        ),
        Action::CreateWindow => match st.selected_index() {
            None => only_status_changed(before, after) && status_is(
                after.state.status,
                "No session selected"@,
                true,
            ),
            Some(i) => only_modal_changed(before, after) && input_modal_is(
                after.state.modal,
                "Create window in "@ + st.sessions@[i].name@,
                InputAction::CreateWindow { session_name: st.sessions@[i].name },
            ),
        },
        Action::Rename => match st.selected_window_position() {
            Some((i, w)) => only_modal_changed(before, after) && input_modal_is(
                after.state.modal,
                "Rename window "@ + window_target(
                    st.sessions@[i].name@,
                    st.sessions@[i].windows@[w].index@,
                ),
                InputAction::RenameWindow {
                    session_name: st.sessions@[i].name,
                    window_index: st.sessions@[i].windows@[w].index,
                },
            ),
            None => match st.selected_index() {
                None => only_status_changed(before, after) && status_is(
                    after.state.status,
                    "No session selected"@,
                    true,
                ),
                Some(i) => only_modal_changed(before, after) && input_modal_is(
                    after.state.modal,
                    "Rename session "@ + st.sessions@[i].name@,
                    InputAction::RenameSession { session_name: st.sessions@[i].name },
                ),
            },
        },
        Action::Close => match st.selected_window_position() {
            Some((i, w)) => only_modal_changed(before, after) && confirm_modal_is(
                after.state.modal,
                "Close window "@ + window_target(
                    st.sessions@[i].name@,
                    st.sessions@[i].windows@[w].index@,
                ),
                close_prompt(),
                ConfirmAction::CloseWindow {
                    session_name: st.sessions@[i].name,
                    window_index: st.sessions@[i].windows@[w].index,
                },
            ),
            None => match st.selected_index() {
                None => only_status_changed(before, after) && status_is(
                    after.state.status,
                    "No session selected"@,
                    true,
                ),
                Some(i) => only_modal_changed(before, after) && confirm_modal_is(
                    after.state.modal,
                    "Close session "@ + st.sessions@[i].name@,
                    close_prompt(),
                    ConfirmAction::CloseSession { session_name: st.sessions@[i].name },
                ),
            },
        },
        _ => false,
    }
}

/// Whether `f` selects the session named `name` and says `message`.
pub open spec fn follow_up_is(f: FollowUp, select: Option<(Seq<char>, Option<Seq<char>>)>, message: Seq<char>) -> bool {
    &&& f.message@ == message
    &&& match select {
        None => f.select is None,
        Some((s, None)) => f.select matches Some(TreeSelection::Session { name }) && name@ == s,
        Some((s, Some(w))) => f.select matches Some(
            TreeSelection::Window { session_name, window_index },
        ) && session_name@ == s && window_index@ == w,
    }
}

/// The effect of submitting the text `value` (already trimmed) of an input dialog for
/// `action`: the tmux command, and what to select and say once it has run.
pub open spec fn input_effect_is(action: InputAction, value: Seq<char>, r: Effect) -> bool {
    r matches Effect::Run { command, then } && match action {
        InputAction::CreateSession => {
            &&& command@ == create_session_command(value, Seq::<char>::empty())
            &&& follow_up_is(then, Some((value, None)), "Session created"@)
        },
        InputAction::CreateWindow { session_name } => {
            &&& command@ == create_window_command(session_name@, value, Seq::<char>::empty())
            &&& follow_up_is(then, Some((session_name@, None)), "Window created"@)
        },
        InputAction::RenameSession { session_name } => {
            &&& command@ == rename_session_command(session_name@, value)
            &&& follow_up_is(then, Some((value, None)), "Session renamed"@)
        },
        InputAction::RenameWindow { session_name, window_index } => {
            &&& command@ == rename_window_command(session_name@, window_index@, value)
            &&& follow_up_is(
                then,
                Some((session_name@, Some(window_index@))),
                "Window renamed"@,
            )
        },
    }
}

/// The effect of confirming a dialog for `action`, with the sessions `sessions`.
pub open spec fn confirm_effect_is(action: ConfirmAction, sessions: Seq<Session>, r: Effect) -> bool {
    match action {
        ConfirmAction::CloseSession { session_name } => r matches Effect::Run { command, then } && {
            &&& command@ == close_session_command(session_name@)
            &&& follow_up_is(then, None, "Session closed"@)
        },
        ConfirmAction::CloseWindow { session_name, window_index } => r matches Effect::Run {
            command,
            then,
        } && {
            &&& command@ == close_window_command(session_name@, window_index@)
            &&& follow_up_is(then, Some((session_name@, None)), "Window closed"@)
        },
        ConfirmAction::OverwriteSessionExport => r matches Effect::WriteExport(f) && f@
            == saved_form(sessions),
        ConfirmAction::RunSessionRestore => r is RunRestore,
    }
}

/// `app` with its dialog closed.
pub open spec fn closed(app: App) -> App {
    App { state: State { modal: None, ..app.state }, ..app }
}

/// Whether `after` is `before` with the input dialog `title`, `value`, `action` open
/// again, its text now `text`.
pub open spec fn input_reopened(
    title: String,
    action: InputAction,
    text: Seq<char>,
    before: App,
    after: App,
) -> bool {
    &&& only_modal_changed(before, after)
    &&& after.state.modal matches Some(Modal::Input { title: t, value: v, action: a }) && t == title
        && a == action && v@ == text
}

/// Whether key `key` in the input dialog `title`, `value`, `action` took the app, its
/// dialog closed, from `before` to `after` with effect `r`.
pub open spec fn input_key_done(
    title: String,
    value: String,
    action: InputAction,
    key: Key,
    before: App,
    after: App,
    r: Effect,
) -> bool {
    match key {
        Key::Esc => after == before && r is Nothing,
        Key::Backspace => input_reopened(
            title,
            action,
            if value@.len() == 0 {
                value@
            } else {
                value@.drop_last()
            },
            before,
            after,
        ) && r is Nothing,
        Key::Char(c) => input_reopened(title, action, value@.push(c), before, after) && r is Nothing,
        Key::Enter => if trim(value@).len() == 0 {
            only_status_changed(before, after) && status_is(
                after.state.status,
                "Input cannot be empty"@,
                true,
            ) && r is Nothing
        } else {
            after == before && input_effect_is(action, trim(value@), r)
        },
        _ => after == (App {
            state: State { modal: Some(Modal::Input { title, value, action }), ..before.state },
            ..before
        }) && r is Nothing,
    }
}

/// Whether key `key` in the confirmation `title`, `prompt`, `action` took the app, its
/// dialog closed, from `before` to `after` with effect `r`.
pub open spec fn confirm_key_done(
    title: String,
    prompt: String,
    action: ConfirmAction,
    key: Key,
    before: App,
    after: App,
    r: Effect,
) -> bool {
    let keep = after == (App {
        state: State { modal: Some(Modal::Confirm { title, prompt, action }), ..before.state },
        ..before
    }) && r is Nothing;
    match key {
        Key::Esc => after == before && r is Nothing,
        Key::Enter => after == before && confirm_effect_is(action, before.state.sessions@, r),
        Key::Char(c) => if c == 'n' {
            after == before && r is Nothing
        } else if c == 'y' {
            after == before && confirm_effect_is(action, before.state.sessions@, r)
        } else {
            keep
        },
        _ => keep,
    }
}

/// `Esc` in any dialog, and `n` in a confirmation, cancel: the dialog closes, nothing
/// else changes, and no command, export or restore is started.
pub proof fn lemma_dialog_cancel(key: Key, before: App, after: App, r: Option<Effect>)
    requires
        App::modal_key_done(key, before, after, r),
        key == Key::Esc || (key == Key::Char('n') && before.state.modal matches Some(
            Modal::Confirm { .. },
        )),
        before.state.modal is Some,
    ensures
        after == closed(before),
        after.state.modal is None,
        r matches Some(e) && e is Nothing,
{
}

/// `Enter` and `y` in a confirmation close it and start the work it asked about.
pub proof fn lemma_confirm_accept(key: Key, before: App, after: App, r: Option<Effect>)
    requires
        App::modal_key_done(key, before, after, r),
        key == Key::Enter || key == Key::Char('y'),
        before.state.modal is Some,
        before.state.modal->0 is Confirm,
    ensures
        after == closed(before),
        r matches Some(e) && !(e is Nothing) && match before.state.modal->0 {
            Modal::Confirm { action, .. } => match action {
                ConfirmAction::CloseSession { session_name } => e matches Effect::Run {
                    command,
                    ..
                } && command@ == close_session_command(session_name@),
                ConfirmAction::CloseWindow { session_name, window_index } => e matches Effect::Run {
                    command,
                    ..
                } && command@ == close_window_command(session_name@, window_index@),
                ConfirmAction::OverwriteSessionExport => e is WriteExport,
                ConfirmAction::RunSessionRestore => e is RunRestore,
            },
            _ => true,
        },
{
}

impl App {
    /// Whether carrying out `action` took `before` to `after` with effect `r`.
    pub open spec fn action_done(action: Option<Action>, before: App, after: App, r: Effect) -> bool {
        match action {
            None => after == before && r is Nothing,
            Some(a) => if is_tree_action(a) {
                tree_focus_done(a, before, after, r)
            } else {
                match a {
                    Action::Quit => after == before && r is Quit,
                    Action::Refresh => after == before && (r matches Effect::Refresh(f) && f is None),
                    Action::Export => after == before && r is CheckExportFile,
                    Action::Restore => after == before && r is LoadRestorePrompt,
                    Action::StartFilter => {
                        &&& after.state == (State { filter_mode: true, ..before.state })
                        &&& after.preview == before.preview
                        &&& after.restore_job == before.restore_job
                        &&& r is Nothing
                    },
                    Action::CycleFocus => {
                        &&& after.state == (State {
                            focus: State::next_focus(before.state.focus),
                            ..before.state
                        })
                        &&& after.preview == before.preview
                        &&& after.restore_job == before.restore_job
                        &&& r is Nothing
                    },
                    Action::Attach => App::attach_started(before, after, r),
                    _ => action_started(a, before, after) && r is Nothing,
                }
            },
        }
    }

    /// Whether a key pressed with dialog state `before` took it to `after` with effect
    /// `r` (`None` when no dialog is open).
    pub open spec fn modal_key_done(key: Key, before: App, after: App, r: Option<Effect>) -> bool {
        match before.state.modal {
            None => r is None && after == before,
            Some(Modal::Input { title, value, action }) => r matches Some(eff) && input_key_done(
                title,
                value,
                action,
                key,
                closed(before),
                after,
                eff,
            ),
            Some(Modal::Confirm { title, prompt, action }) => r matches Some(eff) && confirm_key_done(
                title,
                prompt,
                action,
                key,
                closed(before),
                after,
                eff,
            ),
        }
    }

    /// Handles a key press, `control` telling whether Ctrl was held: an open dialog
    /// takes the key; otherwise the key's action is carried out.
    pub fn handle_key(&mut self, key: Key, control: bool) -> (r: Effect)
        ensures
            if old(self).state.modal is Some {
                App::modal_key_done(key, *old(self), *final(self), Some(r))
            } else {
                App::action_done(key_action(key, control), *old(self), *final(self), r)
            },
            old(self).state.wf() ==> final(self).state.wf(),
    {
        match self.handle_modal_key(key) {
            Some(effect) => effect,
            None => self.handle_action(App::action_from_key(key, control)),
        }
    }

    /// Carries out an action: quitting, refreshing, exporting and restoring hand work
    /// to the caller; moving and folding the tree act when the tree has the focus and
    /// then ask for a preview; attaching asks to attach to the selection; creating,
    /// renaming and closing open their dialog.
    pub fn handle_action(&mut self, action: Option<Action>) -> (r: Effect)
        ensures
            App::action_done(action, *old(self), *final(self), r),
            old(self).state.wf() ==> final(self).state.wf(),
    {
        let action = match action {
            None => return Effect::Nothing,
            Some(a) => a,
        };
        match action {
            Action::Quit => Effect::Quit,
            Action::Refresh => Effect::Refresh(None),
            Action::Export => self.export_sessions(),
            Action::Restore => self.restore_sessions(),
            Action::StartFilter => {
                self.state.start_filter();
                Effect::Nothing
            },
            Action::CycleFocus => {
                self.state.cycle_focus();
                Effect::Nothing
            },
            Action::MoveUp | Action::MoveDown | Action::Select | Action::Expand | Action::Collapse
            | Action::ToggleExpand => self.with_tree_focus(action),
            Action::Attach => self.perform_attach(),
            Action::CreateSession | Action::CreateWindow | Action::Rename | Action::Close => {
                self.start_action(action);
                Effect::Nothing
            },
        }
    }

    /// Moves or folds the tree when it has the focus, then asks for a preview.
    fn with_tree_focus(&mut self, action: Action) -> (r: Effect)
        requires
            is_tree_action(action),
        ensures
            tree_focus_done(action, *old(self), *final(self), r),
            old(self).state.wf() ==> final(self).state.wf(),
    {
        if self.state.focus != FocusRegion::Tree {
            return Effect::Nothing;
        }
        match action {
            Action::MoveUp => self.state.move_up(),
            Action::MoveDown => self.state.move_down(),
            Action::Select => self.state.select(),
            Action::Expand => self.state.expand_selected_session(),
            Action::Collapse => self.state.collapse_selected_session(),
            _ => self.state.toggle_expand(),
        }
        self.preview_effect()
    }

    /// Whether attaching took `before` to `after` with effect `r`: without a selected
    /// session an error; else a request to attach to it, and to the selected window.
    pub open spec fn attach_started(before: App, after: App, r: Effect) -> bool {
        match before.state.selected_index() {
            None => only_status_changed(before, after) && status_is(
                after.state.status,
                "No session selected"@,
                true,
            ) && r is Nothing,
            Some(i) => after == before && (r matches Effect::Attach { session_name, window_index }
                && session_name@ == before.state.sessions@[i].name@ && match before.state.selected_window_position() {
                Some((si, w)) => window_index matches Some(x) && x@
                    == before.state.sessions@[si].windows@[w].index@,
                None => window_index is None,
            }),
        }
    }

    fn perform_attach(&mut self) -> (r: Effect)
        ensures
            App::attach_started(*old(self), *final(self), r),
    {
        let session_name = match self.state.selected_session_name() {
            None => {
                self.set_error_status("No session selected");
                return Effect::Nothing;
            },
            Some(name) => String::from_str(name),
        };
        let window_index = match self.state.selected_window_index() {
            Some(w) => Some(String::from_str(w)),
            None => None,
        };
        Effect::Attach { session_name, window_index }
    }

    /// After an attach: leave the dashboard (`true`) when it worked, else report the
    /// failure.
    pub fn attach_finished(&mut self, outcome: Result<(), String>) -> (quit: bool)
        ensures
            match outcome {
                Ok(()) => quit && *final(self) == *old(self),
                Err(e) => !quit && only_status_changed(*old(self), *final(self)) && status_is(
                    final(self).state.status,
                    "Attach failed: "@ + e@,
                    true,
                ),
            },
    {
        match outcome {
            Ok(()) => true,
            Err(e) => {
                let message = concat("Attach failed: ", e.as_str());
                self.set_error_status(message.as_str());
                false
            },
        }
    }

    fn start_action(&mut self, action: Action)
        requires
            action == Action::CreateSession || action == Action::CreateWindow || action
                == Action::Rename || action == Action::Close,
        ensures
            action_started(action, *old(self), *final(self)),
    {
        match action {
            Action::CreateSession => {
                self.state.modal = Some(
                    Modal::Input {
                        title: String::from_str("Create session"),
                        value: String::new(),
                        action: InputAction::CreateSession,
                    },
                );
            },
            Action::CreateWindow => {
                let session_name = match self.state.selected_session_ref() {
                    None => {
                        self.set_error_status("No session selected");
                        return ;
                    },
                    Some(s) => s.name.clone(),
                };
                let title = concat("Create window in ", session_name.as_str());
                self.state.modal = Some(
                    Modal::Input {
                        title,
                        value: String::new(),
                        action: InputAction::CreateWindow { session_name },
                    },
                );
            },
            Action::Rename => self.open_rename_modal(),
            _ => self.open_close_modal(),
        }
    }

    /// The selected session's name and the selected window's index, cloned.
    fn selected_pair(&self) -> (r: Option<(String, String)>)
        ensures
            match self.state.selected_window_position() {
                Some((i, w)) => r matches Some(p) && p.0 == self.state.sessions@[i].name && p.1
                    == self.state.sessions@[i].windows@[w].index,
                None => r is None,
            },
    {
        let session = match self.state.selected_session_ref() {
            None => return None,
            Some(s) => s,
        };
        match self.state.selected_window_ref() {
            Some(w) => Some((session.name.clone(), w.index.clone())),
            None => None,
        }
    }

    fn open_rename_modal(&mut self)
        ensures
            action_started(Action::Rename, *old(self), *final(self)),
    {
        if let Some((session_name, window_index)) = self.selected_pair() {
            let target = concat3(session_name.as_str(), ":", window_index.as_str());
            let title = concat("Rename window ", target.as_str());
            self.state.modal = Some(
                Modal::Input {
                    title,
                    value: String::new(),
                    action: InputAction::RenameWindow { session_name, window_index },
                },
            );
            return ;
        }
        let session_name = match self.state.selected_session_ref() {
            None => {
                self.set_error_status("No session selected");
                return ;
            },
            Some(s) => s.name.clone(),
        };
        let title = concat("Rename session ", session_name.as_str());
        self.state.modal = Some(
            Modal::Input {
                title,
                value: String::new(),
                action: InputAction::RenameSession { session_name },
            },
        );
    }

    fn open_close_modal(&mut self)
        ensures
            action_started(Action::Close, *old(self), *final(self)),
    {
        if let Some((session_name, window_index)) = self.selected_pair() {
            let target = concat3(session_name.as_str(), ":", window_index.as_str());
            let title = concat("Close window ", target.as_str());
            self.state.modal = Some(
                Modal::Confirm {
                    title,
                    prompt: String::from_str("Press y/Enter to confirm, n/Esc to cancel"),
                    action: ConfirmAction::CloseWindow { session_name, window_index },
                },
            );
            return ;
        }
        let session_name = match self.state.selected_session_ref() {
            None => {
                self.set_error_status("No session selected");
                return ;
            },
            Some(s) => s.name.clone(),
        };
        let title = concat("Close session ", session_name.as_str());
        self.state.modal = Some(
            Modal::Confirm {
                title,
                prompt: String::from_str("Press y/Enter to confirm, n/Esc to cancel"),
                action: ConfirmAction::CloseSession { session_name },
            },
        );
    }

    /// Submits the text of an input dialog, trimmed: an error when it is empty, else
    /// the tmux command to run.
    fn submit_input_action(&mut self, action: InputAction, value: &str) -> (r: Effect)
        ensures
            if value@.len() == 0 {
                only_status_changed(*old(self), *final(self)) && status_is(
                    final(self).state.status,
                    "Input cannot be empty"@,
                    true,
                ) && r is Nothing
            } else {
                *final(self) == *old(self) && input_effect_is(action, value@, r)
            },
    {
        if value.is_empty() {
            self.set_error_status("Input cannot be empty");
            return Effect::Nothing;
        }
        match action {
            InputAction::CreateSession => Effect::Run {
                command: create_session(value),
                then: FollowUp {
                    select: Some(TreeSelection::Session { name: String::from_str(value) }),
                    message: String::from_str("Session created"),
                },
            },
            InputAction::CreateWindow { session_name } => Effect::Run {
                command: create_window(session_name.as_str(), value),
                then: FollowUp {
                    select: Some(TreeSelection::Session { name: session_name }),
                    message: String::from_str("Window created"),
                },
            },
            InputAction::RenameSession { session_name } => Effect::Run {
                command: rename_session(session_name.as_str(), value),
                then: FollowUp {
                    select: Some(TreeSelection::Session { name: String::from_str(value) }),
                    message: String::from_str("Session renamed"),
                },
            },
            InputAction::RenameWindow { session_name, window_index } => Effect::Run {
                command: rename_window(session_name.as_str(), window_index.as_str(), value),
                then: FollowUp {
                    select: Some(TreeSelection::Window { session_name, window_index }),
                    message: String::from_str("Window renamed"),
                },
            },
        }
    }

    /// Confirms a dialog: the tmux command to run, the export to write, or the restore
    /// to run.
    fn submit_confirm_action(&mut self, action: ConfirmAction) -> (r: Effect)
        ensures
            *final(self) == *old(self),
            confirm_effect_is(action, old(self).state.sessions@, r),
    {
        match action {
            ConfirmAction::CloseSession { session_name } => Effect::Run {
                command: close_session(session_name.as_str()),
                then: FollowUp { select: None, message: String::from_str("Session closed") },
            },
            ConfirmAction::CloseWindow { session_name, window_index } => Effect::Run {
                command: close_window(session_name.as_str(), window_index.as_str()),
                then: FollowUp {
                    select: Some(TreeSelection::Session { name: session_name }),
                    message: String::from_str("Window closed"),
                },
            },
            ConfirmAction::OverwriteSessionExport => self.perform_export(),
            ConfirmAction::RunSessionRestore => self.perform_restore_sessions(),
        }
    }

    /// After a tmux command: on success, read the sessions again and then follow up;
    /// on failure, report it.
    pub fn command_finished(&mut self, then: FollowUp, outcome: Result<(), String>) -> (r: Effect)
        ensures
            match outcome {
                Ok(()) => *final(self) == *old(self) && r == Effect::Refresh(Some(then)),
                Err(e) => only_status_changed(*old(self), *final(self)) && status_is(
                    final(self).state.status,
                    "Action failed: "@ + e@,
                    true,
                ) && r is Nothing,
            },
    {
        match outcome {
            Ok(()) => Effect::Refresh(Some(then)),
            Err(e) => {
                let message = concat("Action failed: ", e.as_str());
                self.set_error_status(message.as_str());
                Effect::Nothing
            },
        }
    }

    /// Handles a key while a dialog is open: `None` when none is. In an input dialog,
    /// `Esc` closes it, `Backspace` removes a character, `Enter` closes it and submits
    /// the text trimmed, a character is added; in a confirmation, `Esc` or `n` closes it
    /// and `Enter` or `y` closes it and confirms. Other keys change nothing.
    pub fn handle_modal_key(&mut self, key: Key) -> (r: Option<Effect>)
        ensures
            App::modal_key_done(key, *old(self), *final(self), r),
            old(self).state.wf() ==> final(self).state.wf(),
    {
        let modal = match self.state.modal.take() {
            None => return None,
            Some(m) => m,
        };
        match modal {
            Modal::Input { title, value, action } => Some(
                self.handle_input_modal_key(title, value, action, key),
            ),
            Modal::Confirm { title, prompt, action } => Some(
                self.handle_confirm_modal_key(title, prompt, action, key),
            ),
        }
    }

    fn handle_input_modal_key(&mut self, title: String, value: String, action: InputAction, key: Key) -> (r: Effect)
        requires
            old(self).state.modal is None,
        ensures
            input_key_done(title, value, action, key, *old(self), *final(self), r),
    {
        let mut value = value;
        match key {
            Key::Esc => Effect::Nothing,
            Key::Backspace => {
                pop_char(&mut value);
                self.state.modal = Some(Modal::Input { title, value, action });
                Effect::Nothing
            },
            Key::Enter => {
                let trimmed = trimmed_string(&chars_of(value.as_str()));
                self.submit_input_action(action, trimmed.as_str())
            },
            Key::Char(c) => {
                push_char(&mut value, c);
                self.state.modal = Some(Modal::Input { title, value, action });
                Effect::Nothing
            },
            _ => {
                self.state.modal = Some(Modal::Input { title, value, action });
                Effect::Nothing
            },
        }
    }

    fn handle_confirm_modal_key(
        &mut self,
        title: String,
        prompt: String,
        action: ConfirmAction,
        key: Key,
    ) -> (r: Effect)
        requires
            old(self).state.modal is None,
        ensures
            confirm_key_done(title, prompt, action, key, *old(self), *final(self), r),
    {
        match key {
            Key::Esc => Effect::Nothing,
            Key::Char('n') => Effect::Nothing,
            Key::Enter | Key::Char('y') => self.submit_confirm_action(action),
            _ => {
                self.state.modal = Some(Modal::Confirm { title, prompt, action });
                Effect::Nothing
            },
        }
    }

    // -----------------------------------------------------------------------
    // Exporting
    // -----------------------------------------------------------------------
    /// Starts an export: first check whether saved sessions exist.
    pub fn export_sessions(&mut self) -> (r: Effect)
        ensures
            *final(self) == *old(self),
            r is CheckExportFile,
    {
        Effect::CheckExportFile
    }

    /// After checking for saved sessions: when there are some, ask before overwriting
    /// them; else write them; report a failed check.
    pub fn export_checked(&mut self, found: Result<bool, String>) -> (r: Effect)
        ensures
            match found {
                Ok(true) => only_modal_changed(*old(self), *final(self)) && confirm_modal_is(
                    final(self).state.modal,
                    "Overwrite existing export file"@,
                    "Press y/Enter to overwrite, n/Esc to cancel"@,
                    ConfirmAction::OverwriteSessionExport,
                ) && r is Nothing,
                Ok(false) => *final(self) == *old(self) && (r matches Effect::WriteExport(f) && f@
                    == saved_form(old(self).state.sessions@)),
                Err(e) => only_status_changed(*old(self), *final(self)) && status_is(
                    final(self).state.status,
                    "Export failed: "@ + e@,
                    true,
                ) && r is Nothing,
            },
    {
        match found {
            Ok(true) => {
                self.state.modal = Some(
                    Modal::Confirm {
                        title: String::from_str("Overwrite existing export file"),
                        prompt: String::from_str("Press y/Enter to overwrite, n/Esc to cancel"),
                        action: ConfirmAction::OverwriteSessionExport,
                    },
                );
                Effect::Nothing
            },
            Ok(false) => self.perform_export(),
            Err(e) => {
                let message = concat("Export failed: ", e.as_str());
                self.set_error_status(message.as_str());
                Effect::Nothing
            },
        }
    }

    /// Writes the saved form of the sessions.
    pub fn perform_export(&mut self) -> (r: Effect)
        ensures
            *final(self) == *old(self),
            r matches Effect::WriteExport(f) && f@ == saved_form(old(self).state.sessions@),
    {
        Effect::WriteExport(SessionBackupFile::from_sessions(self.state.sessions.as_slice()))
    }

    /// After writing the saved sessions to `path`, or failing to.
    pub fn export_written(&mut self, outcome: Result<String, String>)
        ensures
            only_status_changed(*old(self), *final(self)),
            match outcome {
                Ok(path) => status_is(final(self).state.status, "Exported sessions to "@ + path@, false),
                Err(e) => status_is(final(self).state.status, "Export failed: "@ + e@, true),
            },
    {
        match outcome {
            Ok(path) => {
                let message = concat("Exported sessions to ", path.as_str());
                self.set_status(message.as_str());
            },
            Err(e) => {
                let message = concat("Export failed: ", e.as_str());
                self.set_error_status(message.as_str());
            },
        }
    }
}

} // verus!
