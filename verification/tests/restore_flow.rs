use tuimux::app::actions::{Action, Key};
use tuimux::app::backup::{SessionBackupFile, SessionRecord, WindowRecord};
use tuimux::app::restore::{RestoreEvent, RestoreJob, RestoreStep};
use tuimux::app::state::{ConfirmAction, Modal};
use tuimux::app::{App, Effect, RefreshOutcome};
use tuimux::tmux::session::{Session, Window};

fn record(name: &str, path: &str, windows: &[(&str, &str)]) -> SessionRecord {
    SessionRecord {
        name: name.to_string(),
        path: path.to_string(),
        windows: windows
            .iter()
            .map(|(n, p)| WindowRecord { name: n.to_string(), path: p.to_string() })
            .collect(),
    }
}

fn saved() -> SessionBackupFile {
    SessionBackupFile::from_records(vec![
        record("web", "/srv/web", &[("server", "/srv/web/api"), ("client", "/srv/web/ui")]),
        record("db", "/srv/db", &[]),
    ])
}

fn created(name: &str, first_index: &str) -> Session {
    Session {
        name: name.to_string(),
        work_dir: String::from("/srv/web/api"),
        windows: vec![Window {
            index: first_index.to_string(),
            name: String::from("zsh"),
            layout: String::from("L"),
            active_pane_path: String::from("/srv/web/api"),
            activity: 0,
        }],
        activity: 0,
    }
}

fn step_args(step: &RestoreStep) -> Vec<String> {
    match step {
        RestoreStep::Run(c) => c.args.clone(),
        _ => panic!("not a command"),
    }
}

fn checks(step: &RestoreStep) -> String {
    match step {
        RestoreStep::CheckSession(n) => n.clone(),
        _ => panic!("not a check"),
    }
}

fn status(app: &App) -> Option<(String, bool)> {
    app.state.status.as_ref().map(|s| (s.message.clone(), s.is_error))
}

#[test]
fn restore_asks_first() {
    let mut app = App::new();
    assert!(matches!(app.handle_action(Some(Action::Restore)), Effect::LoadRestorePrompt));
    app.restore_prompt(Ok(saved()));
    assert_eq!(
        app.state.modal,
        Some(Modal::Confirm {
            title: String::from("Confirm restore"),
            prompt: String::from(
                "This will restore 2 sessions and 2 windows. Press y/Enter to continue, n/Esc to cancel"
            ),
            action: ConfirmAction::RunSessionRestore,
        })
    );
    assert!(matches!(app.handle_modal_key(Key::Enter), Some(Effect::RunRestore)));
    assert!(app.state.modal.is_none());
    assert!(matches!(app.perform_restore_sessions(), Effect::RunRestore));
}

#[test]
fn restore_reports_a_failed_read() {
    let mut app = App::new();
    app.restore_prompt(Err(String::from("no file")));
    assert!(app.state.modal.is_none());
    assert_eq!(status(&app), Some((String::from("Restore failed: no file"), true)));
    app.start_restore(Err(String::from("bad json")));
    assert!(app.restore_job.is_none());
    assert_eq!(status(&app), Some((String::from("Restore failed: bad json"), true)));
}

#[test]
fn a_full_restore() {
    let mut app = App::new();
    assert!(matches!(app.restore_step(), RestoreStep::Idle));
    app.start_restore(Ok(saved()));

    // "web" is taken, and so is "web-restored-2".
    assert_eq!(checks(&app.restore_step()), "web");
    app.restore_event(RestoreEvent::Checked(Ok(true)));
    assert_eq!(checks(&app.restore_step()), "web-restored-2");
    app.restore_event(RestoreEvent::Checked(Ok(true)));
    assert_eq!(checks(&app.restore_step()), "web-restored-3");
    app.restore_event(RestoreEvent::Checked(Ok(false)));

    let step = app.restore_step();
    assert_eq!(
        step_args(&step),
        vec!["new-session", "-d", "-s", "web-restored-3", "-c", "/srv/web/api"]
    );
    app.restore_event(RestoreEvent::Ran(Ok(())));
    match app.restore_step() {
        RestoreStep::ReadSession(n) => assert_eq!(n, "web-restored-3"),
        _ => panic!("expected a read"),
    }
    app.restore_event(RestoreEvent::Read(Ok(created("web-restored-3", "1"))));
    assert_eq!(
        step_args(&app.restore_step()),
        vec!["rename-window", "-t", "web-restored-3:1", "server"]
    );
    app.restore_event(RestoreEvent::Ran(Ok(())));
    assert_eq!(
        step_args(&app.restore_step()),
        vec!["new-window", "-t", "web-restored-3:", "-n", "client", "-c", "/srv/web/ui"]
    );
    app.restore_event(RestoreEvent::Ran(Ok(())));

    // "db" is free and has no windows: created in its own directory.
    assert_eq!(checks(&app.restore_step()), "db");
    app.restore_event(RestoreEvent::Checked(Ok(false)));
    assert_eq!(step_args(&app.restore_step()), vec!["new-session", "-d", "-s", "db", "-c", "/srv/db"]);
    app.restore_event(RestoreEvent::Ran(Ok(())));
    assert!(matches!(app.restore_step(), RestoreStep::Refresh));

    let effect = app.restore_refreshed(Ok(RefreshOutcome { sessions: vec![], skipped_sessions: vec![] }));
    assert!(matches!(effect, Effect::Nothing));
    assert!(app.restore_job.is_none());
    assert_eq!(
        status(&app),
        Some((
            String::from(
                "Restore complete: created 2 sessions and 2 windows, renamed 1 duplicate sessions"
            ),
            false
        ))
    );
}

#[test]
fn failures_are_reported_and_the_restore_goes_on() {
    let records = vec![
        record("a", "/a", &[("one", "/a/1")]),
        record("b", "/b", &[("x", "/b/x"), ("y", "/b/y")]),
        record("c", "/c", &[("z", "/c/z")]),
        record("d", "/d", &[("w", "/d/w")]),
    ];
    let mut job = RestoreJob::new(records);

    // a: creating fails.
    job = job.advance(RestoreEvent::Checked(Ok(false))).0;
    job = job.advance(RestoreEvent::Ran(Err(String::from("exit 1")))).0;
    // b: the second window fails.
    assert_eq!(checks(&job.request()), "b");
    job = job.advance(RestoreEvent::Checked(Ok(false))).0;
    job = job.advance(RestoreEvent::Ran(Ok(()))).0;
    job = job.advance(RestoreEvent::Read(Ok(created("b", "0")))).0;
    job = job.advance(RestoreEvent::Ran(Ok(()))).0;
    job = job.advance(RestoreEvent::Ran(Err(String::from("no such dir")))).0;
    // c: read back with no windows.
    assert_eq!(checks(&job.request()), "c");
    job = job.advance(RestoreEvent::Checked(Ok(false))).0;
    job = job.advance(RestoreEvent::Ran(Ok(()))).0;
    let empty = Session {
        name: String::from("c"),
        work_dir: String::from("/c"),
        windows: vec![],
        activity: 0,
    };
    job = job.advance(RestoreEvent::Read(Ok(empty))).0;
    // d: created with its one window.
    assert_eq!(checks(&job.request()), "d");
    job = job.advance(RestoreEvent::Checked(Ok(false))).0;
    job = job.advance(RestoreEvent::Ran(Ok(()))).0;
    job = job.advance(RestoreEvent::Read(Ok(created("d", "0")))).0;
    assert_eq!(step_args(&job.request()), vec!["rename-window", "-t", "d:0", "w"]);
    job = job.advance(RestoreEvent::Ran(Ok(()))).0;
    assert!(matches!(job.request(), RestoreStep::Refresh));

    let summary = job.summary();
    assert!(summary.is_error);
    assert_eq!(
        summary.message,
        "Restore finished with 3 errors: session a: create failed; created 1 sessions and 1 windows, renamed 0 duplicate sessions"
    );
}

#[test]
fn other_failure_messages() {
    let mut job = RestoreJob::new(vec![
        record("a", "/a", &[("one", "/a/1"), ("two", "/a/2")]),
        record("b", "/b", &[("x", "/b/x")]),
    ]);
    job = job.advance(RestoreEvent::Checked(Ok(false))).0;
    job = job.advance(RestoreEvent::Ran(Ok(()))).0;
    job = job.advance(RestoreEvent::Read(Err(String::from("gone")))).0;
    job = job.advance(RestoreEvent::Checked(Ok(false))).0;
    job = job.advance(RestoreEvent::Ran(Ok(()))).0;
    job = job.advance(RestoreEvent::Read(Ok(created("b", "5")))).0;
    job = job.advance(RestoreEvent::Ran(Err(String::from("x")))).0;
    let summary = job.summary();
    assert_eq!(
        summary.message,
        "Restore finished with 2 errors: session a: read after create failed; created 0 sessions and 0 windows, renamed 0 duplicate sessions"
    );
}

#[test]
fn a_window_failure_quotes_the_window_and_the_error() {
    let mut job = RestoreJob::new(vec![record("a", "/a", &[("one", "/a/1"), ("two", "/a/2")])]);
    job = job.advance(RestoreEvent::Checked(Ok(false))).0;
    job = job.advance(RestoreEvent::Ran(Ok(()))).0;
    job = job.advance(RestoreEvent::Read(Ok(created("a", "0")))).0;
    job = job.advance(RestoreEvent::Ran(Ok(()))).0;
    job = job.advance(RestoreEvent::Ran(Err(String::from("Failed to create window")))).0;
    assert_eq!(
        job.summary().message,
        "Restore finished with 1 errors: session a: create window two failed: Failed to create window; created 0 sessions and 0 windows, renamed 0 duplicate sessions"
    );
}

#[test]
fn a_failed_check_stops_the_restore() {
    let mut app = App::new();
    app.start_restore(Ok(saved()));
    app.restore_event(RestoreEvent::Checked(Ok(true)));
    app.restore_event(RestoreEvent::Checked(Err(String::from("Failed to get sessions"))));
    assert!(app.restore_job.is_none());
    assert_eq!(
        status(&app),
        Some((
            String::from("Restore failed while resolving session web: Failed to get sessions"),
            true
        ))
    );
    assert!(matches!(app.restore_step(), RestoreStep::Idle));
}

#[test]
fn events_that_do_not_answer_the_step_change_nothing() {
    let mut job = RestoreJob::new(vec![record("a", "/a", &[])]);
    job = job.advance(RestoreEvent::Ran(Ok(()))).0;
    assert_eq!(checks(&job.request()), "a");
    let (job, stop) = job.advance(RestoreEvent::Read(Err(String::from("x"))));
    assert!(stop.is_none());
    assert_eq!(checks(&job.request()), "a");
}

#[test]
fn an_empty_restore_is_finished_at_once() {
    let job = RestoreJob::new(vec![]);
    assert!(matches!(job.request(), RestoreStep::Refresh));
    assert_eq!(
        job.summary().message,
        "Restore complete: created 0 sessions and 0 windows, renamed 0 duplicate sessions"
    );
}

#[test]
fn every_saved_session_is_accounted_for() {
    let names = ["s0", "s1", "s2", "s3", "s4"];
    let records: Vec<SessionRecord> = names.iter().map(|n| record(n, "/", &[])).collect();
    let mut job = RestoreJob::new(records);
    for (k, _) in names.iter().enumerate() {
        job = job.advance(RestoreEvent::Checked(Ok(false))).0;
        let outcome = if k % 2 == 0 { Ok(()) } else { Err(String::from("e")) };
        job = job.advance(RestoreEvent::Ran(outcome)).0;
    }
    assert!(matches!(job.request(), RestoreStep::Refresh));
    assert_eq!(
        job.summary().message,
        "Restore finished with 2 errors: session s1: create failed; created 3 sessions and 0 windows, renamed 0 duplicate sessions"
    );
}

#[test]
fn restore_refreshed_without_a_restore_is_a_plain_refresh() {
    let mut app = App::new();
    let effect = app.restore_refreshed(Err(String::from("e")));
    assert!(matches!(effect, Effect::Nothing));
    assert_eq!(status(&app), Some((String::from("Refresh failed: e"), true)));
}
