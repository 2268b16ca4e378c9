use tuimux::app::state::{ConfirmAction, FocusRegion, InputAction, Modal, State, StatusLine};
use tuimux::tmux::session::{Session, Window};
use tuimux::ui::{details_text, help_status, help_text, modal_text, tree_lines, tree_title};

fn window(index: &str, name: &str) -> Window {
    Window {
        index: index.to_string(),
        name: name.to_string(),
        layout: String::from("L"),
        active_pane_path: String::from("/p"),
        activity: 0,
    }
}

fn loaded() -> State {
    let mut st = State::default();
    st.set_sessions(vec![
        Session {
            name: String::from("alpha"),
            work_dir: String::from("/a"),
            windows: vec![window("0", "shell"), window("1", "Editor")],
            activity: 0,
        },
        Session {
            name: String::from("beta"),
            work_dir: String::from("/b"),
            windows: vec![window("2", "logs")],
            activity: 0,
        },
    ]);
    st
}

fn lines(st: &State) -> Vec<(String, bool)> {
    tree_lines(st).into_iter().map(|l| (l.text, l.selected)).collect()
}

fn line(text: &str, selected: bool) -> (String, bool) {
    (text.to_string(), selected)
}

#[test]
fn tree_without_sessions() {
    let st = State::default();
    assert_eq!(lines(&st), vec![line("No active tmux sessions", false)]);
}

#[test]
fn collapsed_tree() {
    let st = loaded();
    assert_eq!(lines(&st), vec![line("> [+] alpha", true), line("  [+] beta", false)]);
}

#[test]
fn expanded_tree_marks_the_selected_window() {
    let mut st = loaded();
    st.expand_selected_session();
    st.move_down();
    st.move_down();
    assert_eq!(
        lines(&st),
        vec![
            line("  [-] alpha", false),
            line("  - [0] shell", false),
            line("  * [1] Editor", true),
            line("  [+] beta", false),
        ]
    );
}

#[test]
fn filtered_tree_shows_the_search_and_matching_rows() {
    let mut st = loaded();
    st.start_filter();
    for c in " edit".chars() {
        st.append_filter_char(c);
    }
    assert_eq!(
        lines(&st),
        vec![
            line("Search:  edit", false),
            line("", false),
            line("> [-] alpha", true),
            line("  - [1] Editor", false),
        ]
    );
}

#[test]
fn filter_mode_with_an_empty_query_shows_everything() {
    let mut st = loaded();
    st.start_filter();
    assert_eq!(
        lines(&st),
        vec![
            line("Search: ", false),
            line("", false),
            line("> [+] alpha", true),
            line("  [+] beta", false),
        ]
    );
}

#[test]
fn titles_and_details() {
    let mut st = loaded();
    assert_eq!(tree_title(&st), "Sessions (focus)");
    st.focus = FocusRegion::Help;
    assert_eq!(tree_title(&st), "Sessions");
    assert_eq!(details_text(&st), "Selected item details and preview will render here");
    st.status = Some(StatusLine { message: String::from("Loaded 2 sessions"), is_error: false });
    assert_eq!(details_text(&st), "Status: Loaded 2 sessions");
}

#[test]
fn help_panel() {
    assert_eq!(
        help_text(),
        "Nav: Tab focus  Up/Down sessions  Left collapse  Right expand  Enter cycle window\n\
         CRUD: c create session  w create window  n rename  x close  a attach\n\
         Other: Space toggle  r refresh  q quit"
    );
    let mut st = loaded();
    assert_eq!(help_status(&st), (String::from("Status: ready | Focus: tree"), false));
    st.status = Some(StatusLine { message: String::from("boom"), is_error: true });
    st.focus = FocusRegion::Details;
    assert_eq!(help_status(&st), (String::from("Status (error): boom | Focus: details"), true));
    st.status = Some(StatusLine { message: String::from("fine"), is_error: false });
    assert_eq!(help_status(&st), (String::from("Status (ok): fine | Focus: details"), false));
}

#[test]
fn dialogs() {
    let mut st = loaded();
    assert_eq!(modal_text(&st), None);
    st.modal = Some(Modal::Input {
        title: String::from("Create session"),
        value: String::from("dev"),
        action: InputAction::CreateSession,
    });
    assert_eq!(
        modal_text(&st),
        Some(String::from("Create session\n\n  > dev_\n\n[Enter] submit  [Esc] cancel"))
    );
    st.modal = Some(Modal::Confirm {
        title: String::from("Close session alpha"),
        prompt: String::from("Press y/Enter to confirm, n/Esc to cancel"),
        action: ConfirmAction::CloseSession { session_name: String::from("alpha") },
    });
    assert_eq!(
        modal_text(&st),
        Some(String::from("Close session alpha\n\n  Press y/Enter to confirm, n/Esc to cancel"))
    );
}

#[test]
fn one_line_per_visible_row() {
    let mut st = loaded();
    st.expand_selected_session();
    assert_eq!(tree_lines(&st).len(), st.tree_rows().len());
    st.start_filter();
    st.append_filter_char('E');
    let rows = st.tree_rows();
    let drawn = lines(&st);
    assert_eq!(drawn.len(), rows.len() + 2);
    assert_eq!(drawn[2..].iter().filter(|l| l.1).count(), 1);
}

#[test]
fn without_a_filter_every_session_is_listed() {
    let mut st = loaded();
    st.append_filter_char(' ');
    let drawn = lines(&st);
    assert_eq!(drawn.len(), 2);
    assert!(drawn[0].0.ends_with("alpha"));
    assert!(drawn[1].0.ends_with("beta"));
}
