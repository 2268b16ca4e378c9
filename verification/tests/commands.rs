use tuimux::tmux::command::{
    attach_to_session, attach_to_window, capture_pane, capture_preview, close_session,
    close_window, command_outcome, create_session, create_session_with_path, create_window,
    create_window_with_path, current_session_name, fetch_all_sessions, get_session,
    get_session_name, list_all_windows, list_panes, list_session_names,
    list_session_names_for_check, list_sessions, preview_target, relaunch, relaunch_outcome,
    rename_session, rename_window, resolve_preview_pane, session_exists, session_path,
    session_windows, should_relaunch, CommandOutput, TmuxCommand,
};

fn ok_output(stdout: &[u8]) -> Option<CommandOutput> {
    Some(CommandOutput { success: true, stdout: stdout.to_vec(), stderr: String::new() })
}

fn failed_output(stderr: &str) -> Option<CommandOutput> {
    Some(CommandOutput { success: false, stdout: Vec::new(), stderr: stderr.to_string() })
}

fn args(c: &TmuxCommand) -> Vec<&str> {
    c.args.iter().map(String::as_str).collect()
}

const INVALID_UTF8: &[u8] = &[0x66, 0xff, 0x6f];

#[test]
fn attach_session_outside_and_inside_tmux() {
    let c = attach_to_session("main", false);
    assert_eq!(args(&c), vec!["attach-session", "-t", "main"]);
    assert_eq!(c.spawn_error, "Failed to attach session");
    assert_eq!(c.failure_error.as_deref(), Some("tmux failed to attach session main"));
    let c = attach_to_session("main", true);
    assert_eq!(args(&c), vec!["switch-client", "-t", "main"]);
}

#[test]
fn attach_window_selects_the_window() {
    let c = attach_to_window("main", "2", false);
    assert_eq!(
        args(&c),
        vec!["attach-session", "-t", "main", ";", "select-window", "-t", "main:2"]
    );
    assert_eq!(c.spawn_error, "Failed to attach to target window");
    assert_eq!(c.failure_error.as_deref(), Some("tmux failed to attach/select window main:2"));
    let c = attach_to_window("main", "2", true);
    assert_eq!(args(&c)[0], "switch-client");
    assert_eq!(c.spawn_error, "Failed to switch to target window");
}

#[test]
fn create_session_commands() {
    let c = create_session("dev");
    assert_eq!(args(&c), vec!["new-session", "-d", "-s", "dev"]);
    assert_eq!(c.spawn_error, "Failed to create session");
    assert_eq!(c.failure_error.as_deref(), Some("tmux failed to create session dev"));
    let c = create_session_with_path("dev", "/srv/app");
    assert_eq!(args(&c), vec!["new-session", "-d", "-s", "dev", "-c", "/srv/app"]);
    let c = create_session_with_path("dev", "");
    assert_eq!(args(&c), vec!["new-session", "-d", "-s", "dev"]);
}

#[test]
fn create_window_commands() {
    let c = create_window("dev", "logs");
    assert_eq!(args(&c), vec!["new-window", "-t", "dev:", "-n", "logs"]);
    assert_eq!(c.spawn_error, "Failed to create window");
    assert_eq!(c.failure_error.as_deref(), Some("tmux failed to create window logs in dev"));
    let c = create_window_with_path("dev", "logs", "/var/log");
    assert_eq!(args(&c), vec!["new-window", "-t", "dev:", "-n", "logs", "-c", "/var/log"]);
}

#[test]
fn rename_commands() {
    let c = rename_session("old", "new");
    assert_eq!(args(&c), vec!["rename-session", "-t", "old", "new"]);
    assert_eq!(c.spawn_error, "Failed to rename session");
    assert_eq!(c.failure_error.as_deref(), Some("tmux failed to rename session old"));
    let c = rename_window("s", "1", "editor");
    assert_eq!(args(&c), vec!["rename-window", "-t", "s:1", "editor"]);
    assert_eq!(c.failure_error.as_deref(), Some("tmux failed to rename window s:1"));
}

#[test]
fn close_commands() {
    let c = close_session("s");
    assert_eq!(args(&c), vec!["kill-session", "-t", "s"]);
    assert_eq!(c.spawn_error, "Failed to kill session");
    assert_eq!(c.failure_error.as_deref(), Some("tmux failed to kill session s"));
    let c = close_window("s", "4");
    assert_eq!(args(&c), vec!["kill-window", "-t", "s:4"]);
    assert_eq!(c.spawn_error, "Failed to kill window");
    assert_eq!(c.failure_error.as_deref(), Some("tmux failed to kill window s:4"));
}

#[test]
fn outcome_of_a_command() {
    let checked = close_window("s", "4");
    assert_eq!(command_outcome(&checked, None), Err(String::from("Failed to kill window")));
    assert_eq!(command_outcome(&checked, Some(true)), Ok(()));
    assert_eq!(
        command_outcome(&checked, Some(false)),
        Err(String::from("tmux failed to kill window s:4"))
    );
    let session = close_session("s");
    assert_eq!(command_outcome(&session, Some(false)), Err(String::from("tmux failed to kill session s")));
    assert_eq!(command_outcome(&session, None), Err(String::from("Failed to kill session")));
    let attach = attach_to_session("s", false);
    assert_eq!(command_outcome(&attach, Some(false)), Err(String::from("tmux failed to attach session s")));
    assert_eq!(command_outcome(&attach, Some(true)), Ok(()));
    let rename = rename_session("s", "t");
    assert_eq!(command_outcome(&rename, Some(false)), Err(String::from("tmux failed to rename session s")));
}

#[test]
fn query_arguments() {
    assert_eq!(
        list_all_windows(),
        vec![
            "list-windows",
            "-a",
            "-F",
            "#{session_name}\x1f#{session_path}\x1f#{window_index}\x1f#{window_name}\x1f#{window_layout}\x1f#{pane_current_path}",
        ]
    );
    assert_eq!(list_session_names(), vec!["list-sessions", "-F", "#{session_name}"]);
    assert_eq!(list_session_names_for_check(), vec!["list-session", "-F", "#{session_name}"]);
    assert_eq!(current_session_name(), vec!["display-message", "-p", "-F", "#{session_name}"]);
    assert_eq!(
        session_path("s"),
        vec!["display-message", "-p", "-t", "s", "-F", "#{session_path}"]
    );
    assert_eq!(
        session_windows("s"),
        vec![
            "list-windows",
            "-t",
            "s",
            "-F",
            "#{window_index}\x1f#{window_name}\x1f#{window_layout}\x1f#{pane_current_path}",
        ]
    );
    assert_eq!(list_panes("s:1"), vec!["list-panes", "-t", "s:1", "-F", "#{pane_id}"]);
    assert_eq!(capture_pane("%3"), vec!["capture-pane", "-e", "-p", "-S", "-200", "-t", "%3"]);
    assert_eq!(relaunch(), vec!["detach-client", "-E", "TUIMUX_RELAUNCHED=1 tuimux"]);
}

#[test]
fn fetching_all_sessions() {
    let e = fetch_all_sessions(None).unwrap_err();
    assert_eq!(e, "Failed to execute 'tmux list-windows -a'");

    let none = fetch_all_sessions(failed_output("no server running on /tmp/tmux-0/default")).unwrap();
    assert!(none.is_empty());

    let e = fetch_all_sessions(failed_output("boom")).unwrap_err();
    assert_eq!(e, "tmux list-windows -a failed: boom");

    let e = fetch_all_sessions(ok_output(INVALID_UTF8)).unwrap_err();
    assert_eq!(e, "Failed to convert tmux output to UTF-8 string");

    let listing = "a\u{1f}/a\u{1f}0\u{1f}w\u{1f}L\u{1f}/a/w\n";
    let sessions = fetch_all_sessions(ok_output(listing.as_bytes())).unwrap();
    assert_eq!(sessions.len(), 1);
    assert_eq!(sessions[0].name, "a");
    assert_eq!(sessions[0].windows[0].active_pane_path, "/a/w");
}

#[test]
fn listing_session_names() {
    assert_eq!(list_sessions(None).unwrap_err(), "Failed to get active sessions");
    assert!(list_sessions(failed_output("error: no server running")).unwrap().is_empty());
    assert_eq!(list_sessions(failed_output("bad")).unwrap_err(), "tmux list-sessions failed: bad");
    assert_eq!(
        list_sessions(ok_output(INVALID_UTF8)).unwrap_err(),
        "Failed to convert tmux output to UTF-8 string"
    );
    assert_eq!(list_sessions(ok_output(b" a \n\nb\n")).unwrap(), vec!["a", "b"]);
}

#[test]
fn checking_whether_a_session_exists() {
    assert_eq!(session_exists("a", None), Err(String::from("Failed to get sessions")));
    assert_eq!(session_exists("a", ok_output(b"a\nb\n")), Ok(true));
    assert_eq!(session_exists("c", ok_output(b"a\nb\n")), Ok(false));
    let failed_but_listed = Some(CommandOutput {
        success: false,
        stdout: b"a\n".to_vec(),
        stderr: String::from("no server running"),
    });
    assert_eq!(
        session_exists("a", failed_but_listed),
        Err(String::from("tmux list-session failed: no server running"))
    );
    assert_eq!(session_exists("", ok_output(b"a\nb\n")), Ok(false));
    assert_eq!(session_exists("", ok_output(b"a\n\nb")), Ok(false));
    assert_eq!(session_exists("b", ok_output(b"a\n b\n")), Ok(false));
    let e = session_exists("a", ok_output(INVALID_UTF8)).unwrap_err();
    assert_eq!(e, String::from_utf8(INVALID_UTF8.to_vec()).unwrap_err().to_string());
}

#[test]
fn current_session_name_is_trimmed() {
    assert_eq!(get_session_name(None), Err(String::from("Failed to execute 'tmux display-message'")));
    assert_eq!(get_session_name(ok_output(b"  main\n")), Ok(String::from("main")));
    assert_eq!(
        get_session_name(ok_output(INVALID_UTF8)),
        Err(String::from("Failed to convert tmux output to UTF-8 string"))
    );
}

#[test]
fn reading_one_session() {
    let s = get_session(
        "dev",
        ok_output(b"/srv/dev\n"),
        ok_output("0\u{1f}shell\u{1f}L\u{1f}/srv/dev\n1\u{1f}logs\u{1f}L\u{1f}/var/log\n".as_bytes()),
    )
    .unwrap();
    assert_eq!(s.name, "dev");
    assert_eq!(s.work_dir, "/srv/dev");
    assert_eq!(s.windows.len(), 2);
    assert_eq!(s.windows[1].name, "logs");
    assert_eq!(s.activity, 0);

    let e = get_session("dev", None, ok_output(b"")).unwrap_err();
    assert_eq!(e, "Failed to get working directory for session 'dev'");
    let e = get_session("dev", ok_output(b"/x"), ok_output(b"not a window")).unwrap_err();
    assert_eq!(e, "Failed to get windows for session 'dev'");
    let e = get_session("dev", ok_output(b"/x"), None).unwrap_err();
    assert_eq!(e, "Failed to get windows for session 'dev'");
}

#[test]
fn preview_targets() {
    assert_eq!(preview_target("s", None), "s");
    assert_eq!(preview_target("s", Some("3")), "s:3");
}

#[test]
fn resolving_the_preview_pane() {
    assert_eq!(
        resolve_preview_pane("s:1", None),
        Err(String::from("Failed to list panes for target s:1"))
    );
    assert_eq!(
        resolve_preview_pane("s:1", failed_output("can't find window")),
        Err(String::from("tmux list-panes failed for s:1: can't find window"))
    );
    assert_eq!(
        resolve_preview_pane("s:1", ok_output(INVALID_UTF8)),
        Err(String::from("Failed to convert tmux list-panes output to UTF-8"))
    );
    assert_eq!(resolve_preview_pane("s:1", ok_output(b"\n %7 \n%8\n")), Ok(String::from("%7")));
    assert_eq!(
        resolve_preview_pane("s:1", ok_output(b"\n \n")),
        Err(String::from("No panes found for target s:1"))
    );
}

#[test]
fn capturing_the_preview() {
    assert_eq!(
        capture_preview("%7", None),
        Err(String::from("Failed to capture pane output for target %7"))
    );
    assert_eq!(
        capture_preview("%7", failed_output("gone")),
        Err(String::from("tmux capture-pane failed for %7: gone"))
    );
    assert_eq!(
        capture_preview("%7", ok_output(INVALID_UTF8)),
        Err(String::from("Failed to convert tmux capture-pane output to UTF-8"))
    );
    assert_eq!(capture_preview("%7", ok_output(b"$ ls\r\n\ta\n\n")), Ok(String::from("$ ls\n        a")));
}

#[test]
fn relaunching_outside_tmux() {
    assert!(should_relaunch(true, false));
    assert!(!should_relaunch(true, true));
    assert!(!should_relaunch(false, false));
    let base = "Failed to relaunch tuimux outside tmux. tmux sessions should be nested with care.";
    assert_eq!(relaunch_outcome(None), Err(String::from(base)));
    assert_eq!(relaunch_outcome(ok_output(b"")), Ok(true));
    assert_eq!(relaunch_outcome(failed_output("  \n")), Err(String::from(base)));
    assert_eq!(
        relaunch_outcome(failed_output(" no client \n")),
        Err(format!("{base} tmux said: no client"))
    );
}
