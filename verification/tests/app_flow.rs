use tuimux::app::actions::{action_for_key, Action, Key};
use tuimux::app::backup::SessionBackupFile;
use tuimux::app::state::{ConfirmAction, FocusRegion, InputAction, Modal, StatusLine, TreeSelection};
use tuimux::app::{App, Effect, FollowUp, PreviewResult, RefreshOutcome};
use tuimux::tmux::session::{Session, Window};

fn window(index: &str, name: &str, path: &str) -> Window {
    Window {
        index: index.to_string(),
        name: name.to_string(),
        layout: String::from("L"),
        active_pane_path: path.to_string(),
        activity: 0,
    }
}

fn sessions() -> Vec<Session> {
    vec![
        Session {
            name: String::from("alpha"),
            work_dir: String::from("/a"),
            windows: vec![window("0", "shell", "/a/s"), window("1", "editor", "")],
            activity: 0,
        },
        Session {
            name: String::from("beta"),
            work_dir: String::from("/b"),
            windows: vec![window("3", "logs", "/var/log")],
            activity: 0,
        },
    ]
}

fn loaded() -> App {
    let mut app = App::new();
    app.state.set_sessions(sessions());
    app
}

fn status(app: &App) -> Option<(String, bool)> {
    app.state.status.as_ref().map(|s| (s.message.clone(), s.is_error))
}

fn args(e: &Effect) -> Vec<String> {
    match e {
        Effect::Run { command, .. } => command.args.clone(),
        _ => panic!("not a command"),
    }
}

fn type_text(app: &mut App, text: &str) {
    for c in text.chars() {
        assert!(matches!(app.handle_modal_key(Key::Char(c)), Some(Effect::Nothing)));
    }
}

#[test]
fn keys_map_to_actions() {
    let cases = [
        (Key::Esc, false, Some(Action::Quit)),
        (Key::Char('q'), false, Some(Action::Quit)),
        (Key::Char('c'), true, Some(Action::Quit)),
        (Key::Char('c'), false, Some(Action::CreateSession)),
        (Key::Tab, false, Some(Action::CycleFocus)),
        (Key::Char('E'), false, Some(Action::Export)),
        (Key::Char('R'), false, Some(Action::Restore)),
        (Key::Up, false, Some(Action::MoveUp)),
        (Key::Char('k'), false, Some(Action::MoveUp)),
        (Key::Down, false, Some(Action::MoveDown)),
        (Key::Char('j'), false, Some(Action::MoveDown)),
        (Key::Left, false, Some(Action::Collapse)),
        (Key::Char('h'), false, Some(Action::Collapse)),
        (Key::Right, false, Some(Action::Expand)),
        (Key::Char('l'), false, Some(Action::Expand)),
        (Key::Enter, false, Some(Action::Select)),
        (Key::Char('a'), false, Some(Action::Attach)),
        (Key::Char(' '), false, Some(Action::ToggleExpand)),
        (Key::Char('r'), false, Some(Action::Refresh)),
        (Key::Char('s'), false, Some(Action::CreateSession)),
        (Key::Char('w'), false, Some(Action::CreateWindow)),
        (Key::Char('n'), false, Some(Action::Rename)),
        (Key::Char('x'), false, Some(Action::Close)),
        (Key::Char('z'), false, None),
        (Key::Backspace, false, None),
        (Key::Other, true, None),
    ];
    for (key, control, want) in cases {
        assert_eq!(action_for_key(key, control), want);
        assert_eq!(App::action_from_key(key, control), want);
    }
}

#[test]
fn new_app_is_empty() {
    let app = App::new();
    assert!(app.state.sessions.is_empty());
    assert!(app.preview.is_none());
    assert!(app.restore_job.is_none());
    assert!(app.state.status.is_none());
}

#[test]
fn simple_actions_hand_back_work() {
    let mut app = loaded();
    assert!(matches!(app.handle_action(None), Effect::Nothing));
    assert!(matches!(app.handle_action(Some(Action::Quit)), Effect::Quit));
    assert!(matches!(app.handle_action(Some(Action::Refresh)), Effect::Refresh(None)));
    assert!(matches!(app.handle_action(Some(Action::Export)), Effect::CheckExportFile));
    assert!(matches!(app.handle_action(Some(Action::Restore)), Effect::LoadRestorePrompt));
    assert!(matches!(app.handle_action(Some(Action::StartFilter)), Effect::Nothing));
    assert!(app.state.filter_mode);
}

#[test]
fn tree_actions_need_the_tree_focus() {
    let mut app = loaded();
    app.state.cycle_focus();
    assert!(matches!(app.handle_action(Some(Action::MoveDown)), Effect::Nothing));
    assert_eq!(app.state.selected_session, Some(0));
    app.state.focus = FocusRegion::Tree;
    assert!(matches!(app.handle_action(Some(Action::MoveDown)), Effect::Nothing));
    assert_eq!(app.state.selected_session, Some(1));
}

#[test]
fn tree_actions_ask_for_a_preview_when_a_worker_runs() {
    let mut app = loaded();
    app.start_preview();
    match app.handle_action(Some(Action::MoveDown)) {
        Effect::Preview(req) => {
            assert_eq!(req.seq, 1);
            assert_eq!(req.session_name, "beta");
            assert_eq!(req.window_index, None);
        }
        _ => panic!("expected a preview request"),
    }
    assert!(matches!(app.handle_action(Some(Action::Expand)), Effect::Preview(_)));
    match app.handle_action(Some(Action::MoveDown)) {
        Effect::Preview(req) => {
            assert_eq!(req.seq, 3);
            assert_eq!(req.session_name, "beta");
            assert_eq!(req.window_index.as_deref(), Some("3"));
        }
        _ => panic!("expected a preview request"),
    }
}

#[test]
fn preview_requests_and_results() {
    let mut app = App::new();
    assert!(app.request_preview_refresh().is_none());
    app.start_preview();
    assert!(app.request_preview_refresh().is_none());
    assert_eq!(app.state.preview, "No selection");
    assert!(!app.state.preview_is_error);

    app.state.set_sessions(sessions());
    let first = app.request_preview_refresh().unwrap();
    let second = app.request_preview_refresh().unwrap();
    assert_eq!((first.seq, second.seq), (1, 2));

    app.apply_preview_result(PreviewResult { seq: 2, output: String::from("new"), is_error: false });
    assert_eq!(app.state.preview, "new");
    app.apply_preview_result(PreviewResult { seq: 1, output: String::from("old"), is_error: true });
    assert_eq!(app.state.preview, "new");
    assert!(!app.state.preview_is_error);
    assert_eq!(app.preview.as_ref().unwrap().latest_applied_seq, 2);

    app.preview_unavailable();
    assert_eq!(app.state.preview, "Preview unavailable: worker disconnected");
    assert!(app.state.preview_is_error);

    app.stop_preview();
    assert!(app.preview.is_none());
    app.apply_preview_result(PreviewResult { seq: 9, output: String::from("late"), is_error: false });
    assert_eq!(app.state.preview, "Preview unavailable: worker disconnected");
}

#[test]
fn preview_sequence_saturates() {
    let mut app = loaded();
    app.start_preview();
    app.preview.as_mut().unwrap().request_seq = u64::MAX;
    assert_eq!(app.request_preview_refresh().unwrap().seq, u64::MAX);
}

#[test]
fn worker_results() {
    let r = App::preview_result(4, Ok(String::from(" \n\t")));
    assert_eq!((r.seq, r.output.as_str(), r.is_error), (4, "(empty output)", false));
    let r = App::preview_result(5, Ok(String::from("$ ls")));
    assert_eq!((r.output.as_str(), r.is_error), ("$ ls", false));
    let r = App::preview_result(6, Err(String::from("no pane")));
    assert_eq!((r.output.as_str(), r.is_error), ("Preview unavailable: no pane", true));
}

#[test]
fn attaching() {
    let mut app = App::new();
    assert!(matches!(app.handle_action(Some(Action::Attach)), Effect::Nothing));
    assert_eq!(status(&app), Some((String::from("No session selected"), true)));

    let mut app = loaded();
    match app.handle_action(Some(Action::Attach)) {
        Effect::Attach { session_name, window_index } => {
            assert_eq!(session_name, "alpha");
            assert_eq!(window_index, None);
        }
        _ => panic!("expected an attach"),
    }
    app.state.expand_selected_session();
    app.state.move_down();
    match app.handle_action(Some(Action::Attach)) {
        Effect::Attach { session_name, window_index } => {
            assert_eq!(session_name, "alpha");
            assert_eq!(window_index.as_deref(), Some("0"));
        }
        _ => panic!("expected an attach"),
    }
    assert!(app.attach_finished(Ok(())));
    assert!(!app.attach_finished(Err(String::from("tmux failed"))));
    assert_eq!(status(&app), Some((String::from("Attach failed: tmux failed"), true)));
}

#[test]
fn creating_a_session_through_the_dialog() {
    let mut app = loaded();
    assert!(app.handle_modal_key(Key::Char('x')).is_none());
    assert!(matches!(app.handle_action(Some(Action::CreateSession)), Effect::Nothing));
    assert_eq!(
        app.state.modal,
        Some(Modal::Input {
            title: String::from("Create session"),
            value: String::new(),
            action: InputAction::CreateSession,
        })
    );
    type_text(&mut app, "  devx");
    assert!(matches!(app.handle_modal_key(Key::Backspace), Some(Effect::Nothing)));
    assert!(matches!(app.handle_modal_key(Key::Up), Some(Effect::Nothing)));
    type_text(&mut app, " ");
    match &app.state.modal {
        Some(Modal::Input { value, .. }) => assert_eq!(value, "  dev "),
        _ => panic!("dialog closed"),
    }
    let effect = app.handle_modal_key(Key::Enter).unwrap();
    assert!(app.state.modal.is_none());
    assert_eq!(args(&effect), vec!["new-session", "-d", "-s", "dev"]);
    match effect {
        Effect::Run { then, .. } => {
            assert_eq!(then.select, Some(TreeSelection::Session { name: String::from("dev") }));
            assert_eq!(then.message, "Session created");
        }
        _ => unreachable!(),
    }
}

#[test]
fn empty_input_is_refused() {
    let mut app = loaded();
    app.handle_action(Some(Action::CreateSession));
    type_text(&mut app, "   ");
    assert!(matches!(app.handle_modal_key(Key::Enter), Some(Effect::Nothing)));
    assert!(app.state.modal.is_none());
    assert_eq!(status(&app), Some((String::from("Input cannot be empty"), true)));
}

#[test]
fn escape_closes_a_dialog() {
    let mut app = loaded();
    app.handle_action(Some(Action::CreateSession));
    type_text(&mut app, "abc");
    assert!(matches!(app.handle_modal_key(Key::Esc), Some(Effect::Nothing)));
    assert!(app.state.modal.is_none());
    assert!(app.state.status.is_none());
}

#[test]
fn creating_a_window_needs_a_session() {
    let mut app = App::new();
    app.handle_action(Some(Action::CreateWindow));
    assert!(app.state.modal.is_none());
    assert_eq!(status(&app), Some((String::from("No session selected"), true)));

    let mut app = loaded();
    app.handle_action(Some(Action::CreateWindow));
    match &app.state.modal {
        Some(Modal::Input { title, action, .. }) => {
            assert_eq!(title, "Create window in alpha");
            assert_eq!(action, &InputAction::CreateWindow { session_name: String::from("alpha") });
        }
        _ => panic!("no dialog"),
    }
    type_text(&mut app, "logs");
    let effect = app.handle_modal_key(Key::Enter).unwrap();
    assert_eq!(args(&effect), vec!["new-window", "-t", "alpha:", "-n", "logs"]);
    match effect {
        Effect::Run { then, .. } => {
            assert_eq!(then.select, Some(TreeSelection::Session { name: String::from("alpha") }));
            assert_eq!(then.message, "Window created");
        }
        _ => unreachable!(),
    }
}

#[test]
fn renaming_a_session_or_a_window() {
    let mut app = loaded();
    app.handle_action(Some(Action::Rename));
    match &app.state.modal {
        Some(Modal::Input { title, .. }) => assert_eq!(title, "Rename session alpha"),
        _ => panic!("no dialog"),
    }
    type_text(&mut app, "main");
    let effect = app.handle_modal_key(Key::Enter).unwrap();
    assert_eq!(args(&effect), vec!["rename-session", "-t", "alpha", "main"]);
    match effect {
        Effect::Run { then, .. } => {
            assert_eq!(then.select, Some(TreeSelection::Session { name: String::from("main") }));
            assert_eq!(then.message, "Session renamed");
        }
        _ => unreachable!(),
    }

    app.state.expand_selected_session();
    app.state.move_down();
    app.state.move_down();
    app.handle_action(Some(Action::Rename));
    match &app.state.modal {
        Some(Modal::Input { title, .. }) => assert_eq!(title, "Rename window alpha:1"),
        _ => panic!("no dialog"),
    }
    type_text(&mut app, "ed");
    let effect = app.handle_modal_key(Key::Enter).unwrap();
    assert_eq!(args(&effect), vec!["rename-window", "-t", "alpha:1", "ed"]);
    match effect {
        Effect::Run { then, .. } => {
            assert_eq!(
                then.select,
                Some(TreeSelection::Window {
                    session_name: String::from("alpha"),
                    window_index: String::from("1"),
                })
            );
            assert_eq!(then.message, "Window renamed");
        }
        _ => unreachable!(),
    }
}

#[test]
fn closing_asks_first() {
    let mut app = loaded();
    app.handle_action(Some(Action::Close));
    assert_eq!(
        app.state.modal,
        Some(Modal::Confirm {
            title: String::from("Close session alpha"),
            prompt: String::from("Press y/Enter to confirm, n/Esc to cancel"),
            action: ConfirmAction::CloseSession { session_name: String::from("alpha") },
        })
    );
    assert!(matches!(app.handle_modal_key(Key::Char('z')), Some(Effect::Nothing)));
    assert!(app.state.modal.is_some());
    assert!(matches!(app.handle_modal_key(Key::Char('n')), Some(Effect::Nothing)));
    assert!(app.state.modal.is_none());

    app.handle_action(Some(Action::Close));
    let effect = app.handle_modal_key(Key::Char('y')).unwrap();
    assert!(app.state.modal.is_none());
    assert_eq!(args(&effect), vec!["kill-session", "-t", "alpha"]);
    match effect {
        Effect::Run { then, .. } => {
            assert_eq!(then.select, None);
            assert_eq!(then.message, "Session closed");
        }
        _ => unreachable!(),
    }
}

#[test]
fn closing_a_window() {
    let mut app = loaded();
    app.state.expand_selected_session();
    app.state.move_down();
    app.handle_action(Some(Action::Close));
    match &app.state.modal {
        Some(Modal::Confirm { title, .. }) => assert_eq!(title, "Close window alpha:0"),
        _ => panic!("no dialog"),
    }
    let effect = app.handle_modal_key(Key::Enter).unwrap();
    assert_eq!(args(&effect), vec!["kill-window", "-t", "alpha:0"]);
    match effect {
        Effect::Run { then, .. } => {
            assert_eq!(then.select, Some(TreeSelection::Session { name: String::from("alpha") }));
            assert_eq!(then.message, "Window closed");
        }
        _ => unreachable!(),
    }
}

#[test]
fn closing_without_a_selection_reports_it() {
    let mut app = App::new();
    app.handle_action(Some(Action::Close));
    assert!(app.state.modal.is_none());
    assert_eq!(status(&app), Some((String::from("No session selected"), true)));
    app.handle_action(Some(Action::Rename));
    assert!(app.state.modal.is_none());
}

#[test]
fn after_a_command() {
    let mut app = loaded();
    let then = FollowUp { select: None, message: String::from("done") };
    match app.command_finished(then, Ok(())) {
        Effect::Refresh(Some(f)) => assert_eq!(f.message, "done"),
        _ => panic!("expected a refresh"),
    }
    let then = FollowUp { select: None, message: String::from("done") };
    assert!(matches!(app.command_finished(then, Err(String::from("exit 1"))), Effect::Nothing));
    assert_eq!(status(&app), Some((String::from("Action failed: exit 1"), true)));
}

fn outcome(sessions: Vec<Session>, skipped: Vec<String>) -> Result<RefreshOutcome, String> {
    Ok(RefreshOutcome { sessions, skipped_sessions: skipped })
}

#[test]
fn refresh_messages() {
    let mut app = App::new();
    assert!(matches!(app.refresh_sessions(outcome(sessions(), vec![]), None), Effect::Nothing));
    assert_eq!(status(&app), Some((String::from("Loaded 2 sessions"), false)));
    assert_eq!(app.state.selected_session, Some(0));

    app.refresh_sessions(outcome(sessions(), vec![String::from("x")]), None);
    assert_eq!(status(&app), Some((String::from("Loaded 2 sessions, skipped 1"), true)));

    app.refresh_sessions(outcome(vec![], vec![]), None);
    assert_eq!(status(&app), Some((String::from("No tmux sessions"), false)));
    assert_eq!(app.state.selected_session, None);

    app.refresh_sessions(Err(String::from("no tmux")), None);
    assert_eq!(status(&app), Some((String::from("Refresh failed: no tmux"), true)));
}

#[test]
fn refresh_follow_up_selects_and_says_its_message() {
    let mut app = loaded();
    app.state.expand_selected_session();
    let then = FollowUp {
        select: Some(TreeSelection::Window {
            session_name: String::from("alpha"),
            window_index: String::from("1"),
        }),
        message: String::from("Window renamed"),
    };
    app.refresh_sessions(outcome(sessions(), vec![]), Some(then));
    assert_eq!((app.state.selected_session, app.state.selected_window), (Some(0), Some(1)));
    assert_eq!(
        app.state.status,
        Some(StatusLine { message: String::from("Window renamed"), is_error: false })
    );

    let then = FollowUp {
        select: Some(TreeSelection::Session { name: String::from("beta") }),
        message: String::from("Session created"),
    };
    app.refresh_sessions(Err(String::from("gone")), Some(then));
    assert_eq!(app.state.selected_session, Some(1));
    assert_eq!(status(&app), Some((String::from("Session created"), false)));
}

#[test]
fn refresh_asks_for_a_preview() {
    let mut app = App::new();
    app.start_preview();
    match app.refresh_sessions(outcome(sessions(), vec![]), None) {
        Effect::Preview(req) => assert_eq!((req.seq, req.session_name.as_str()), (1, "alpha")),
        _ => panic!("expected a preview request"),
    }
}

#[test]
fn fetch_outcome() {
    let o = App::fetch_sessions(Ok(sessions())).unwrap();
    assert_eq!(o.sessions.len(), 2);
    assert!(o.skipped_sessions.is_empty());
    assert_eq!(App::fetch_sessions(Err(String::from("e"))).unwrap_err(), "e");
}

#[test]
fn status_setters() {
    let mut app = App::new();
    app.set_status("fine");
    assert_eq!(status(&app), Some((String::from("fine"), false)));
    app.set_error_status("bad");
    assert_eq!(status(&app), Some((String::from("bad"), true)));
}

#[test]
fn the_saved_form_of_sessions() {
    let file = SessionBackupFile::from_sessions(&sessions());
    let records = file.sessions();
    assert_eq!(records.len(), 2);
    assert_eq!(records[0].name, "alpha");
    assert_eq!(records[0].path, "/a");
    assert_eq!(records[0].windows[0].name, "shell");
    assert_eq!(records[0].windows[0].path, "/a/s");
    assert_eq!(records[0].windows[1].path, "/a");
    assert_eq!(records[1].windows[0].path, "/var/log");
    assert_eq!(file.window_total(), Some(3));
    assert_eq!(SessionBackupFile::from_sessions(&[]).window_total(), Some(0));
    let back = SessionBackupFile::from_records(file.into_records());
    assert_eq!(back.sessions()[1].name, "beta");
}

#[test]
fn exporting() {
    let mut app = loaded();
    assert!(matches!(app.export_sessions(), Effect::CheckExportFile));

    match app.export_checked(Ok(false)) {
        Effect::WriteExport(file) => assert_eq!(file.sessions().len(), 2),
        _ => panic!("expected a write"),
    }

    assert!(matches!(app.export_checked(Ok(true)), Effect::Nothing));
    assert_eq!(
        app.state.modal,
        Some(Modal::Confirm {
            title: String::from("Overwrite existing export file"),
            prompt: String::from("Press y/Enter to overwrite, n/Esc to cancel"),
            action: ConfirmAction::OverwriteSessionExport,
        })
    );
    match app.handle_modal_key(Key::Enter) {
        Some(Effect::WriteExport(file)) => assert_eq!(file.sessions()[0].name, "alpha"),
        _ => panic!("expected a write"),
    }

    assert!(matches!(app.export_checked(Err(String::from("HOME unset"))), Effect::Nothing));
    assert_eq!(status(&app), Some((String::from("Export failed: HOME unset"), true)));

    app.export_written(Ok(String::from("/h/.config/tuimux/tuimux-sessions.json")));
    assert_eq!(
        status(&app),
        Some((String::from("Exported sessions to /h/.config/tuimux/tuimux-sessions.json"), false))
    );
    app.export_written(Err(String::from("disk full")));
    assert_eq!(status(&app), Some((String::from("Export failed: disk full"), true)));
    assert!(matches!(app.perform_export(), Effect::WriteExport(_)));
}

#[test]
fn keys_listed_in_the_help_do_what_it_says() {
    let mut app = loaded();
    app.state.expand_selected_session();
    assert!(matches!(app.handle_key(Key::Enter, false), Effect::Nothing));
    assert_eq!((app.state.selected_session, app.state.selected_window), (Some(0), Some(0)));
    app.handle_key(Key::Enter, false);
    assert_eq!(app.state.selected_window, Some(1));
    app.handle_key(Key::Tab, false);
    assert_eq!(app.state.focus, FocusRegion::Details);
    app.handle_key(Key::Tab, false);
    app.handle_key(Key::Tab, false);
    assert_eq!(app.state.focus, FocusRegion::Tree);
    app.handle_key(Key::Char('c'), false);
    assert!(matches!(app.state.modal, Some(Modal::Input { action: InputAction::CreateSession, .. })));
    assert!(matches!(app.handle_key(Key::Char('q'), false), Effect::Nothing));
    match &app.state.modal {
        Some(Modal::Input { value, .. }) => assert_eq!(value, "q"),
        _ => panic!("the dialog takes the key"),
    }
    app.handle_key(Key::Esc, false);
    assert!(app.state.modal.is_none());
    assert!(matches!(app.handle_key(Key::Char('c'), true), Effect::Quit));
    assert!(matches!(app.handle_key(Key::Char('a'), false), Effect::Attach { .. }));
}
