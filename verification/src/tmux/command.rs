//! The tmux invocations, and what their outcome means.
//!
//! Each function here says which arguments are passed to `tmux` and how its exit status
//! and output read; running the process is left to the caller.
use vstd::prelude::*;

use crate::text::{
    chars_of, concat, concat3, contains_chars, has_substring, split_char, trim, trim_end,
    trimmed_string,
};
use crate::tmux::parse::{
    clean_capture, expand_text, first_nonblank, first_nonblank_line, listing_has_line,
    names_of_lines, parse_listing, parse_session_listing, parse_session_names, parse_window_lines,
    parse_windows, LINE_SEPARATOR,
};
use crate::tmux::session::{sessions_view, Session};

verus! {

/// What a finished command gave back.
pub struct CommandOutput {
    /// Whether the exit status was success.
    pub success: bool,
    pub stdout: Vec<u8>,
    /// The standard error, decoded.
    pub stderr: String,
}

/// A tmux invocation and how its status reads.
pub struct TmuxCommand {
    /// The arguments after `tmux`.
    pub args: Vec<String>,
    /// The error when the command cannot be started.
    pub spawn_error: String,
    /// The error when tmux exits with a failure status; `None` when the status is not
    /// looked at.
    pub failure_error: Option<String>,
}

/// The arguments as plain strings.
pub open spec fn args_view(args: Seq<String>) -> Seq<Seq<char>> {
    args.map_values(|a: String| a@)
}

/// A tmux invocation as plain values.
pub struct CommandView {
    pub args: Seq<Seq<char>>,
    pub spawn_error: Seq<char>,
    pub failure_error: Option<Seq<char>>,
}

impl View for TmuxCommand {
    type V = CommandView;

    open spec fn view(&self) -> CommandView {
        CommandView {
            args: args_view(self.args@),
            spawn_error: self.spawn_error@,
            failure_error: match self.failure_error {
                Some(m) => Some(m@),
                None => None,
            },
        }
    }
}

/// The attach command (`switch-client` inside tmux).
pub open spec fn attach_session_command(session_name: Seq<char>, inside_tmux: bool) -> CommandView {
    CommandView {
        args: seq![
            if inside_tmux { "switch-client"@ } else { "attach-session"@ },
            "-t"@,
            session_name,
        ],
        spawn_error: "Failed to attach session"@,
        failure_error: Some("tmux failed to attach session "@ + session_name),
    }
}

/// The command that attaches to a session and selects a window.
pub open spec fn attach_window_command(
    session_name: Seq<char>,
    window_index: Seq<char>,
    inside_tmux: bool,
) -> CommandView {
    CommandView {
        args: seq![
            if inside_tmux { "switch-client"@ } else { "attach-session"@ },
            "-t"@,
            session_name,
            ";"@,
            "select-window"@,
            "-t"@,
            window_target(session_name, window_index),
        ],
        spawn_error: if inside_tmux {
            "Failed to switch to target window"@
        } else {
            "Failed to attach to target window"@
        },
        failure_error: Some(
            "tmux failed to attach/select window "@ + window_target(session_name, window_index),
        ),
    }
}

/// The command that creates a detached session, in `work_dir` unless it is empty.
pub open spec fn create_session_command(session_name: Seq<char>, work_dir: Seq<char>) -> CommandView {
    CommandView {
        args: seq!["new-session"@, "-d"@, "-s"@, session_name] + dir_args(work_dir),
        spawn_error: "Failed to create session"@,
        failure_error: Some("tmux failed to create session "@ + session_name),
    }
}

/// The command that creates a window, in `work_dir` unless it is empty.
pub open spec fn create_window_command(
    session_name: Seq<char>,
    window_name: Seq<char>,
    work_dir: Seq<char>,
) -> CommandView {
    CommandView {
        args: seq!["new-window"@, "-t"@, session_name + ":"@, "-n"@, window_name] + dir_args(
            work_dir,
        ),
        spawn_error: "Failed to create window"@,
        failure_error: Some(
            "tmux failed to create window "@ + window_name + " in "@ + session_name,
        ),
    }
}

/// The command that renames a session.
pub open spec fn rename_session_command(session_name: Seq<char>, new_name: Seq<char>) -> CommandView {
    CommandView {
        args: seq!["rename-session"@, "-t"@, session_name, new_name],
        spawn_error: "Failed to rename session"@,
        failure_error: Some("tmux failed to rename session "@ + session_name),
    }
}

/// The command that renames a window.
pub open spec fn rename_window_command(
    session_name: Seq<char>,
    window_index: Seq<char>,
    new_name: Seq<char>,
) -> CommandView {
    CommandView {
        args: seq!["rename-window"@, "-t"@, window_target(session_name, window_index), new_name],
        spawn_error: "Failed to rename window"@,
        failure_error: Some(
            "tmux failed to rename window "@ + window_target(session_name, window_index),
        ),
    }
}

/// The command that closes a session.
pub open spec fn close_session_command(session_name: Seq<char>) -> CommandView {
    CommandView {
        args: seq!["kill-session"@, "-t"@, session_name],
        spawn_error: "Failed to kill session"@,
        failure_error: Some("tmux failed to kill session "@ + session_name),
    }
}

/// The command that closes a window.
pub open spec fn close_window_command(session_name: Seq<char>, window_index: Seq<char>) -> CommandView {
    CommandView {
        args: seq!["kill-window"@, "-t"@, window_target(session_name, window_index)],
        spawn_error: "Failed to kill window"@,
        failure_error: Some(
            "tmux failed to kill window "@ + window_target(session_name, window_index),
        ),
    }
}

/// The message for output that is not UTF-8.
pub open spec fn utf8_message() -> Seq<char> {
    "Failed to convert tmux output to UTF-8 string"@
}

/// What `String::from_utf8` reports, as text, for bytes that are not UTF-8.
pub uninterp spec fn utf8_error_text(bytes: Seq<u8>) -> Seq<char>;

/// Decodes command output with `String::from_utf8`, turning its error into text.
/// Claimed: `Ok` exactly for valid UTF-8, holding the decoded characters; the error
/// text is `utf8_error_text` of the bytes, which is not stated further.
#[verifier::external_body]
fn decode_output(bytes: Vec<u8>) -> (r: Result<String, String>)
    ensures
        r is Ok <==> vstd::utf8::valid_utf8(bytes@),
        r matches Ok(s) ==> s@ == vstd::utf8::decode_utf8(bytes@),
        r matches Err(e) ==> e@ == utf8_error_text(bytes@),
{
    match String::from_utf8(bytes) {
        Ok(s) => Ok(s),
        Err(e) => Err(e.to_string()),
    }
}

/// The text of command output, when it is UTF-8.
pub open spec fn output_text(bytes: Seq<u8>) -> Option<Seq<char>> {
    if vstd::utf8::valid_utf8(bytes) {
        Some(vstd::utf8::decode_utf8(bytes))
    } else {
        None
    }
}

fn arg(s: &str) -> (r: String)
    ensures
        r@ == s@,
{
    String::from_str(s)
}

fn command(args: Vec<String>, spawn_error: &str, failure_error: Option<String>) -> (r: TmuxCommand)
    ensures
        r.args == args,
        r.spawn_error@ == spawn_error@,
        r.failure_error == failure_error,
{
    TmuxCommand { args, spawn_error: arg(spawn_error), failure_error }
}

/// `session:window`, the tmux name of a window.
pub open spec fn window_target(session_name: Seq<char>, window_index: Seq<char>) -> Seq<char> {
    session_name + ":"@ + window_index
}

fn window_target_string(session_name: &str, window_index: &str) -> (r: String)
    ensures
        r@ == window_target(session_name@, window_index@),
{
    concat3(session_name, ":", window_index)
}

// ---------------------------------------------------------------------------
// Commands that change sessions and windows
// ---------------------------------------------------------------------------
/// Attaches to a session, or switches to it when already inside tmux.
pub fn attach_to_session(session_name: &str, inside_tmux: bool) -> (r: TmuxCommand)
    ensures
        r@ == attach_session_command(session_name@, inside_tmux),
{
    let verb = if inside_tmux {
        arg("switch-client")
    } else {
        arg("attach-session")
    };
    let args = vec![verb, arg("-t"), arg(session_name)];
    assert(args_view(args@) =~= seq![
        if inside_tmux { "switch-client"@ } else { "attach-session"@ },
        "-t"@,
        session_name@,
    ]);
    let failure = concat("tmux failed to attach session ", session_name);
    command(args, "Failed to attach session", Some(failure))
}

/// Attaches to a session, or switches to it when already inside tmux, and selects
/// one of its windows.
pub fn attach_to_window(session_name: &str, window_index: &str, inside_tmux: bool) -> (r:
    TmuxCommand)
    ensures
        r@ == attach_window_command(session_name@, window_index@, inside_tmux),
{
    let target = window_target_string(session_name, window_index);
    let verb = if inside_tmux {
        arg("switch-client")
    } else {
        arg("attach-session")
    };
    let failure = concat("tmux failed to attach/select window ", target.as_str());
    let args = vec![
        verb,
        arg("-t"),
        arg(session_name),
        arg(";"),
        arg("select-window"),
        arg("-t"),
        target,
    ];
    assert(args_view(args@) =~= seq![
        if inside_tmux { "switch-client"@ } else { "attach-session"@ },
        "-t"@,
        session_name@,
        ";"@,
        "select-window"@,
        "-t"@,
        window_target(session_name@, window_index@),
    ]);
    let spawn = if inside_tmux {
        "Failed to switch to target window"
    } else {
        "Failed to attach to target window"
    };
    command(args, spawn, Some(failure))
}

/// `["-c", dir]` when `dir` is not empty.
pub open spec fn dir_args(work_dir: Seq<char>) -> Seq<Seq<char>> {
    if work_dir.len() == 0 {
        seq![]
    } else {
        seq!["-c"@, work_dir]
    }
}

fn push_dir_args(args: &mut Vec<String>, work_dir: &str)
    ensures
        args_view(final(args)@) == args_view(old(args)@) + dir_args(work_dir@),
{
    let ghost before = args@;
    if !work_dir.is_empty() {
        args.push(arg("-c"));
        args.push(arg(work_dir));
        assert(args_view(args@) =~= args_view(before) + dir_args(work_dir@));
    } else {
        assert(args_view(args@) =~= args_view(before) + dir_args(work_dir@));
    }
}

/// Creates a detached session.
pub fn create_session(session_name: &str) -> (r: TmuxCommand)
    ensures
        r@ == create_session_command(session_name@, Seq::<char>::empty()),
{
    let r = create_session_with_path(session_name, "");
    proof {
        reveal_strlit("");
    }
    assert(args_view(r.args@) =~= seq!["new-session"@, "-d"@, "-s"@, session_name@]);
    r
}

/// Creates a detached session working in `work_dir`, when it is not empty.
pub fn create_session_with_path(session_name: &str, work_dir: &str) -> (r: TmuxCommand)
    ensures
        r@ == create_session_command(session_name@, work_dir@),
{
    let mut args = vec![arg("new-session"), arg("-d"), arg("-s"), arg(session_name)];
    assert(args_view(args@) =~= seq!["new-session"@, "-d"@, "-s"@, session_name@]);
    push_dir_args(&mut args, work_dir);
    let failure = concat("tmux failed to create session ", session_name);
    command(args, "Failed to create session", Some(failure))
}

/// Creates a window named `window_name` in a session.
pub fn create_window(session_name: &str, window_name: &str) -> (r: TmuxCommand)
    ensures
        r@ == create_window_command(session_name@, window_name@, Seq::<char>::empty()),
{
    let r = create_window_with_path(session_name, window_name, "");
    proof {
        reveal_strlit("");
    }
    assert(args_view(r.args@) =~= seq![
        "new-window"@,
        "-t"@,
        session_name@ + ":"@,
        "-n"@,
        window_name@,
    ]);
    r
}

/// Creates a window named `window_name` in a session, working in `work_dir` when it is
/// not empty.
pub fn create_window_with_path(session_name: &str, window_name: &str, work_dir: &str) -> (r:
    TmuxCommand)
    ensures
        r@ == create_window_command(session_name@, window_name@, work_dir@),
{
    let target = concat(session_name, ":");
    let mut args = vec![arg("new-window"), arg("-t"), target, arg("-n"), arg(window_name)];
    assert(args_view(args@) =~= seq![
        "new-window"@,
        "-t"@,
        session_name@ + ":"@,
        "-n"@,
        window_name@,
    ]);
    push_dir_args(&mut args, work_dir);
    let head = concat3("tmux failed to create window ", window_name, " in ");
    let failure = concat(head.as_str(), session_name);
    command(args, "Failed to create window", Some(failure))
}

/// Renames a session.
pub fn rename_session(session_name: &str, new_name: &str) -> (r: TmuxCommand)
    ensures
        r@ == rename_session_command(session_name@, new_name@),
{
    let args = vec![arg("rename-session"), arg("-t"), arg(session_name), arg(new_name)];
    assert(args_view(args@) =~= seq!["rename-session"@, "-t"@, session_name@, new_name@]);
    let failure = concat("tmux failed to rename session ", session_name);
    command(args, "Failed to rename session", Some(failure))
}

/// Renames a window.
pub fn rename_window(session_name: &str, window_index: &str, new_name: &str) -> (r: TmuxCommand)
    ensures
        r@ == rename_window_command(session_name@, window_index@, new_name@),
{
    let target = window_target_string(session_name, window_index);
    let failure = concat("tmux failed to rename window ", target.as_str());
    let args = vec![arg("rename-window"), arg("-t"), target, arg(new_name)];
    assert(args_view(args@) =~= seq![
        "rename-window"@,
        "-t"@,
        window_target(session_name@, window_index@),
        new_name@,
    ]);
    command(args, "Failed to rename window", Some(failure))
}

/// Closes a session.
pub fn close_session(session_name: &str) -> (r: TmuxCommand)
    ensures
        r@ == close_session_command(session_name@),
{
    let args = vec![arg("kill-session"), arg("-t"), arg(session_name)];
    assert(args_view(args@) =~= seq!["kill-session"@, "-t"@, session_name@]);
    let failure = concat("tmux failed to kill session ", session_name);
    command(args, "Failed to kill session", Some(failure))
}

/// Closes a window.
pub fn close_window(session_name: &str, window_index: &str) -> (r: TmuxCommand)
    ensures
        r@ == close_window_command(session_name@, window_index@),
{
    let target = window_target_string(session_name, window_index);
    let failure = concat("tmux failed to kill window ", target.as_str());
    let args = vec![arg("kill-window"), arg("-t"), target];
    assert(args_view(args@) =~= seq![
        "kill-window"@,
        "-t"@,
        window_target(session_name@, window_index@),
    ]);
    command(args, "Failed to kill window", Some(failure))
}

/// The outcome of a command from its exit status (`None` when it could not be
/// started): the start error, the failure error when the status is looked at and is
/// not success, else success.
pub fn command_outcome(cmd: &TmuxCommand, status: Option<bool>) -> (r: Result<(), String>)
    ensures
        match status {
            None => r matches Err(e) && e@ == cmd.spawn_error@,
            Some(ok) => match cmd.failure_error {
                Some(m) => if ok {
                    r is Ok
                } else {
                    r matches Err(e) && e@ == m@
                },
                None => r is Ok,
            },
        },
{
    match status {
        None => Err(cmd.spawn_error.clone()),
        Some(ok) => match &cmd.failure_error {
            Some(m) => if ok {
                Ok(())
            } else {
                Err(m.clone())
            },
            None => Ok(()),
        },
    }
}

// ---------------------------------------------------------------------------
// Queries
// ---------------------------------------------------------------------------
/// Lists the windows of all sessions, one line each: session name, session
/// directory, window index, window name, window layout, active pane directory.
pub fn list_all_windows() -> (r: Vec<String>)
    ensures
        args_view(r@) == seq![
            "list-windows"@,
            "-a"@,
            "-F"@,
            "#{session_name}\x1f#{session_path}\x1f#{window_index}\x1f#{window_name}\x1f#{window_layout}\x1f#{pane_current_path}"@,
        ],
{
    let r = vec![
        arg("list-windows"),
        arg("-a"),
        arg("-F"),
        arg(
            "#{session_name}\x1f#{session_path}\x1f#{window_index}\x1f#{window_name}\x1f#{window_layout}\x1f#{pane_current_path}",
        ),
    ];
    assert(args_view(r@) =~= seq![
        "list-windows"@,
        "-a"@,
        "-F"@,
        "#{session_name}\x1f#{session_path}\x1f#{window_index}\x1f#{window_name}\x1f#{window_layout}\x1f#{pane_current_path}"@,
    ]);
    r
}

fn no_server(stderr: &String) -> (r: bool)
    ensures
        r == has_substring(stderr@, "no server running"@),
{
    contains_chars(&chars_of(stderr.as_str()), &chars_of("no server running"))
}

/// The sessions from the listing of all windows (`None` when tmux could not be
/// started). No running server means no sessions.
pub fn fetch_all_sessions(out: Option<CommandOutput>) -> (r: Result<Vec<Session>, String>)
    ensures
        match out {
            None => r matches Err(e) && e@ == "Failed to execute 'tmux list-windows -a'"@,
            Some(o) => if !o.success {
                if has_substring(o.stderr@, "no server running"@) {
                    r matches Ok(v) && v@.len() == 0
                } else {
                    r matches Err(e) && e@ == "tmux list-windows -a failed: "@ + o.stderr@
                }
            } else {
                match output_text(o.stdout@) {
                    None => r matches Err(e) && e@ == utf8_message(),
                    Some(t) => r matches Ok(v) && sessions_view(v@) == parse_listing(t),
                }
            },
        },
{
    let o = match out {
        None => return Err(arg("Failed to execute 'tmux list-windows -a'")),
        Some(o) => o,
    };
    if !o.success {
        if no_server(&o.stderr) {
            return Ok(Vec::new());
        }
        return Err(concat("tmux list-windows -a failed: ", o.stderr.as_str()));
    }
    match decode_output(o.stdout) {
        Err(_) => Err(arg("Failed to convert tmux output to UTF-8 string")),
        Ok(text) => Ok(parse_session_listing(text.as_str())),
    }
}

/// Lists the session names.
pub fn list_session_names() -> (r: Vec<String>)
    ensures
        args_view(r@) == seq!["list-sessions"@, "-F"@, "#{session_name}"@],
{
    let r = vec![arg("list-sessions"), arg("-F"), arg("#{session_name}")];
    assert(args_view(r@) =~= seq!["list-sessions"@, "-F"@, "#{session_name}"@]);
    r
}

/// The session names from their listing (`None` when tmux could not be started). No
/// running server means no sessions.
pub fn list_sessions(out: Option<CommandOutput>) -> (r: Result<Vec<String>, String>)
    ensures
        match out {
            None => r matches Err(e) && e@ == "Failed to get active sessions"@,
            Some(o) => if !o.success {
                if has_substring(o.stderr@, "no server running"@) {
                    r matches Ok(v) && v@.len() == 0
                } else {
                    r matches Err(e) && e@ == "tmux list-sessions failed: "@ + o.stderr@
                }
            } else {
                match output_text(o.stdout@) {
                    None => r matches Err(e) && e@ == utf8_message(),
                    Some(t) => r matches Ok(v) && v@.map_values(|s: String| s@) == names_of_lines(
                        split_char(t, LINE_SEPARATOR),
                    ),
                }
            },
        },
{
    let o = match out {
        None => return Err(arg("Failed to get active sessions")),
        Some(o) => o,
    };
    if !o.success {
        if no_server(&o.stderr) {
            return Ok(Vec::new());
        }
        return Err(concat("tmux list-sessions failed: ", o.stderr.as_str()));
    }
    match decode_output(o.stdout) {
        Err(_) => Err(arg("Failed to convert tmux output to UTF-8 string")),
        Ok(text) => Ok(parse_session_names(text.as_str())),
    }
}

/// Lists the session names, for a check of whether one exists.
pub fn list_session_names_for_check() -> (r: Vec<String>)
    ensures
        args_view(r@) == seq!["list-session"@, "-F"@, "#{session_name}"@],
{
    let r = vec![arg("list-session"), arg("-F"), arg("#{session_name}")];
    assert(args_view(r@) =~= seq!["list-session"@, "-F"@, "#{session_name}"@]);
    r
}

/// Whether a session named `session_name` exists, from the listing of names (`None`
/// when tmux could not be started): whether one of its non-empty lines is that name.
/// A failing listing is an error.
pub fn session_exists(session_name: &str, out: Option<CommandOutput>) -> (r: Result<bool, String>)
    ensures
        match out {
            None => r matches Err(e) && e@ == "Failed to get sessions"@,
            Some(o) => if !o.success {
                r matches Err(e) && e@ == "tmux list-session failed: "@ + o.stderr@
            } else {
                match output_text(o.stdout@) {
                    None => r matches Err(e) && e@ == utf8_error_text(o.stdout@),
                    Some(t) => r == Ok::<bool, String>(
                        session_name@.len() > 0 && split_char(t, LINE_SEPARATOR).contains(
                            session_name@,
                        ),
                    ),
                }
            },
        },
{
    let o = match out {
        None => return Err(arg("Failed to get sessions")),
        Some(o) => o,
    };
    if !o.success {
        return Err(concat("tmux list-session failed: ", o.stderr.as_str()));
    }
    match decode_output(o.stdout) {
        Err(e) => Err(e),
        Ok(text) => Ok(listing_has_line(text.as_str(), session_name)),
    }
}

/// Asks for the name of the current session.
pub fn current_session_name() -> (r: Vec<String>)
    ensures
        args_view(r@) == seq!["display-message"@, "-p"@, "-F"@, "#{session_name}"@],
{
    let r = vec![arg("display-message"), arg("-p"), arg("-F"), arg("#{session_name}")];
    assert(args_view(r@) =~= seq!["display-message"@, "-p"@, "-F"@, "#{session_name}"@]);
    r
}

/// The name of the current session from its output (`None` when tmux could not be
/// started), trimmed.
pub fn get_session_name(out: Option<CommandOutput>) -> (r: Result<String, String>)
    ensures
        match out {
            None => r matches Err(e) && e@ == "Failed to execute 'tmux display-message'"@,
            Some(o) => match output_text(o.stdout@) {
                None => r matches Err(e) && e@ == utf8_message(),
                Some(t) => r matches Ok(s) && s@ == trim(t),
            },
        },
{
    let o = match out {
        None => return Err(arg("Failed to execute 'tmux display-message'")),
        Some(o) => o,
    };
    match decode_output(o.stdout) {
        Err(_) => Err(arg("Failed to convert tmux output to UTF-8 string")),
        Ok(text) => Ok(trimmed_string(&chars_of(text.as_str()))),
    }
}

/// Asks for the directory of a session.
pub fn session_path(session_name: &str) -> (r: Vec<String>)
    ensures
        args_view(r@) == seq![
            "display-message"@,
            "-p"@,
            "-t"@,
            session_name@,
            "-F"@,
            "#{session_path}"@,
        ],
{
    let r = vec![
        arg("display-message"),
        arg("-p"),
        arg("-t"),
        arg(session_name),
        arg("-F"),
        arg("#{session_path}"),
    ];
    assert(args_view(r@) =~= seq![
        "display-message"@,
        "-p"@,
        "-t"@,
        session_name@,
        "-F"@,
        "#{session_path}"@,
    ]);
    r
}

/// Lists the windows of a session: index, name, layout, active pane directory.
pub fn session_windows(session_name: &str) -> (r: Vec<String>)
    ensures
        args_view(r@) == seq![
            "list-windows"@,
            "-t"@,
            session_name@,
            "-F"@,
            "#{window_index}\x1f#{window_name}\x1f#{window_layout}\x1f#{pane_current_path}"@,
        ],
{
    let r = vec![
        arg("list-windows"),
        arg("-t"),
        arg(session_name),
        arg("-F"),
        arg("#{window_index}\x1f#{window_name}\x1f#{window_layout}\x1f#{pane_current_path}"),
    ];
    assert(args_view(r@) =~= seq![
        "list-windows"@,
        "-t"@,
        session_name@,
        "-F"@,
        "#{window_index}\x1f#{window_name}\x1f#{window_layout}\x1f#{pane_current_path}"@,
    ]);
    r
}

/// A session from the answers to `session_path` and `session_windows` (`None` when
/// tmux could not be started): its directory trimmed and its windows. The exit statuses
/// are not looked at.
pub fn get_session(
    session_name: &str,
    path_out: Option<CommandOutput>,
    windows_out: Option<CommandOutput>,
) -> (r: Result<Session, String>)
    ensures
        ({
            let path = match path_out {
                Some(o) => output_text(o.stdout@),
                None => None,
            };
            let windows = match windows_out {
                Some(o) => match output_text(o.stdout@) {
                    Some(t) => match parse_window_lines(split_char(t, LINE_SEPARATOR)) {
                        Ok(ws) => Some(ws),
                        Err(_) => None,
                    },
                    None => None,
                },
                None => None,
            };
            match path {
                None => r matches Err(e) && e@ == "Failed to get working directory for session '"@
                    + session_name@ + "'"@,
                Some(p) => match windows {
                    None => r matches Err(e) && e@ == "Failed to get windows for session '"@
                        + session_name@ + "'"@,
                    Some(ws) => r matches Ok(s) && s@.name == session_name@ && s@.work_dir == trim(
                        p,
                    ) && s@.windows == ws && s@.activity == 0,
                },
            }
        }),
{
    let path_text = match path_out {
        Some(o) => match decode_output(o.stdout) {
            Ok(t) => t,
            Err(_) => {
                let head = concat3("Failed to get working directory for session '", session_name, "'");
                return Err(head);
            },
        },
        None => {
            let head = concat3("Failed to get working directory for session '", session_name, "'");
            return Err(head);
        },
    };
    let work_dir = trimmed_string(&chars_of(path_text.as_str()));
    let windows = match windows_out {
        Some(o) => match decode_output(o.stdout) {
            Ok(t) => match parse_windows(t.as_str()) {
                Ok(ws) => ws,
                Err(_) => {
                    return Err(concat3("Failed to get windows for session '", session_name, "'"));
                },
            },
            Err(_) => {
                return Err(concat3("Failed to get windows for session '", session_name, "'"));
            },
        },
        None => {
            return Err(concat3("Failed to get windows for session '", session_name, "'"));
        },
    };
    Ok(Session { name: arg(session_name), work_dir, windows, activity: 0 })
}

// ---------------------------------------------------------------------------
// Previews
// ---------------------------------------------------------------------------
/// The tmux target of a preview: the session, or one of its windows.
pub fn preview_target(session_name: &str, window_index: Option<&str>) -> (r: String)
    ensures
        r@ == match window_index {
            Some(i) => window_target(session_name@, i@),
            None => session_name@,
        },
{
    match window_index {
        Some(i) => window_target_string(session_name, i),
        None => arg(session_name),
    }
}

/// Lists the panes of a target.
pub fn list_panes(target: &str) -> (r: Vec<String>)
    ensures
        args_view(r@) == seq!["list-panes"@, "-t"@, target@, "-F"@, "#{pane_id}"@],
{
    let r = vec![arg("list-panes"), arg("-t"), arg(target), arg("-F"), arg("#{pane_id}")];
    assert(args_view(r@) =~= seq!["list-panes"@, "-t"@, target@, "-F"@, "#{pane_id}"@]);
    r
}

/// The pane to preview for a target: the first pane id listed (`None` when tmux could
/// not be started).
pub fn resolve_preview_pane(target: &str, out: Option<CommandOutput>) -> (r: Result<String, String>)
    ensures
        match out {
            None => r matches Err(e) && e@ == "Failed to list panes for target "@ + target@,
            Some(o) => if !o.success {
                r matches Err(e) && e@ == "tmux list-panes failed for "@ + target@ + ": "@
                    + o.stderr@
            } else {
                match output_text(o.stdout@) {
                    None => r matches Err(e) && e@
                        == "Failed to convert tmux list-panes output to UTF-8"@,
                    Some(t) => match first_nonblank(split_char(t, LINE_SEPARATOR)) {
                        Some(p) => r matches Ok(s) && s@ == p,
                        None => r matches Err(e) && e@ == "No panes found for target "@ + target@,
                    },
                }
            },
        },
{
    let o = match out {
        None => return Err(concat("Failed to list panes for target ", target)),
        Some(o) => o,
    };
    if !o.success {
        let head = concat3("tmux list-panes failed for ", target, ": ");
        return Err(concat(head.as_str(), o.stderr.as_str()));
    }
    match decode_output(o.stdout) {
        Err(_) => Err(arg("Failed to convert tmux list-panes output to UTF-8")),
        Ok(text) => match first_nonblank_line(text.as_str()) {
            Some(p) => Ok(p),
            None => Err(concat("No panes found for target ", target)),
        },
    }
}

/// Captures the last two hundred lines of a pane, with their colours.
pub fn capture_pane(pane: &str) -> (r: Vec<String>)
    ensures
        args_view(r@) == seq![
            "capture-pane"@,
            "-e"@,
            "-p"@,
            "-S"@,
            "-200"@,
            "-t"@,
            pane@,
        ],
{
    let r = vec![
        arg("capture-pane"),
        arg("-e"),
        arg("-p"),
        arg("-S"),
        arg("-200"),
        arg("-t"),
        arg(pane),
    ];
    assert(args_view(r@) =~= seq![
        "capture-pane"@,
        "-e"@,
        "-p"@,
        "-S"@,
        "-200"@,
        "-t"@,
        pane@,
    ]);
    r
}

/// The preview text from a capture (`None` when tmux could not be started): carriage
/// returns dropped, tabs widened, trailing whitespace removed.
pub fn capture_preview(pane: &str, out: Option<CommandOutput>) -> (r: Result<String, String>)
    ensures
        match out {
            None => r matches Err(e) && e@ == "Failed to capture pane output for target "@ + pane@,
            Some(o) => if !o.success {
                r matches Err(e) && e@ == "tmux capture-pane failed for "@ + pane@ + ": "@
                    + o.stderr@
            } else {
                match output_text(o.stdout@) {
                    None => r matches Err(e) && e@
                        == "Failed to convert tmux capture-pane output to UTF-8"@,
                    Some(t) => r matches Ok(s) && s@ == trim_end(expand_text(t)),
                }
            },
        },
{
    let o = match out {
        None => return Err(concat("Failed to capture pane output for target ", pane)),
        Some(o) => o,
    };
    if !o.success {
        let head = concat3("tmux capture-pane failed for ", pane, ": ");
        return Err(concat(head.as_str(), o.stderr.as_str()));
    }
    match decode_output(o.stdout) {
        Err(_) => Err(arg("Failed to convert tmux capture-pane output to UTF-8")),
        Ok(text) => Ok(clean_capture(text.as_str())),
    }
}

// ---------------------------------------------------------------------------
// Leaving an enclosing tmux
// ---------------------------------------------------------------------------
/// Whether to start again outside tmux: when running inside tmux and not already
/// started again.
pub fn should_relaunch(inside_tmux: bool, already_relaunched: bool) -> (r: bool)
    ensures
        r == (inside_tmux && !already_relaunched),
{
    inside_tmux && !already_relaunched
}

/// Detaches the enclosing client and runs the dashboard again outside it.
pub fn relaunch() -> (r: Vec<String>)
    ensures
        args_view(r@) == seq!["detach-client"@, "-E"@, "TUIMUX_RELAUNCHED=1 tuimux"@],
{
    let r = vec![arg("detach-client"), arg("-E"), arg("TUIMUX_RELAUNCHED=1 tuimux")];
    assert(args_view(r@) =~= seq!["detach-client"@, "-E"@, "TUIMUX_RELAUNCHED=1 tuimux"@]);
    r
}

/// The message when the dashboard cannot leave the enclosing tmux.
pub open spec fn relaunch_message() -> Seq<char> {
    "Failed to relaunch tuimux outside tmux. tmux sessions should be nested with care."@
}

/// Whether the relaunch happened (`None` when tmux could not be started); a failure
/// quotes what tmux said, trimmed, when it said anything.
pub fn relaunch_outcome(out: Option<CommandOutput>) -> (r: Result<bool, String>)
    ensures
        match out {
            None => r matches Err(e) && e@ == relaunch_message(),
            Some(o) => if o.success {
                r == Ok::<bool, String>(true)
            } else if trim(o.stderr@).len() == 0 {
                r matches Err(e) && e@ == relaunch_message()
            } else {
                r matches Err(e) && e@ == relaunch_message() + " tmux said: "@ + trim(o.stderr@)
            },
        },
{
    let base = "Failed to relaunch tuimux outside tmux. tmux sessions should be nested with care.";
    let o = match out {
        None => return Err(arg(base)),
        Some(o) => o,
    };
    if o.success {
        return Ok(true);
    }
    let said = trimmed_string(&chars_of(o.stderr.as_str()));
    if said.as_str().is_empty() {
        return Err(arg(base));
    }
    let head = concat(base, " tmux said: ");
    Err(concat(head.as_str(), said.as_str()))
}

} // verus!
