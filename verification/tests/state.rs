use tuimux::app::state::{names_contain, FocusRegion, State, TreeRow, TreeSelection};
use tuimux::tmux::session::{Session, Window};

fn window(index: &str, name: &str) -> Window {
    Window {
        index: index.to_string(),
        name: name.to_string(),
        layout: String::from("L"),
        active_pane_path: format!("/p/{name}"),
        activity: 0,
    }
}

fn session(name: &str, windows: &[(&str, &str)]) -> Session {
    Session {
        name: name.to_string(),
        work_dir: format!("/w/{name}"),
        windows: windows.iter().map(|(i, n)| window(i, n)).collect(),
        activity: 0,
    }
}

fn sample() -> Vec<Session> {
    vec![
        session("alpha", &[("0", "shell"), ("1", "editor")]),
        session("beta", &[("0", "logs")]),
        session("gamma", &[]),
    ]
}

fn loaded() -> State {
    let mut st = State::default();
    st.set_sessions(sample());
    st
}

fn row(s: usize, w: Option<usize>) -> TreeRow {
    TreeRow { session_index: s, window_index: w }
}

fn selected(st: &State) -> (Option<usize>, Option<usize>) {
    (st.selected_session, st.selected_window)
}

#[test]
fn default_state_is_empty() {
    let st = State::default();
    assert_eq!(st.focus, FocusRegion::Tree);
    assert!(st.sessions.is_empty());
    assert_eq!(selected(&st), (None, None));
    assert!(st.selection.is_none());
    assert!(!st.filter_mode);
    assert_eq!(st.filter_query, "");
    assert!(st.tree_rows().is_empty());
}

#[test]
fn loading_sessions_selects_the_first() {
    let st = loaded();
    assert_eq!(selected(&st), (Some(0), None));
    assert_eq!(st.selection, Some(TreeSelection::Session { name: String::from("alpha") }));
    assert_eq!(st.selected_session_name(), Some("alpha"));
    assert_eq!(st.selected_window_index(), None);
    assert_eq!(st.tree_rows(), vec![row(0, None), row(1, None), row(2, None)]);
}

#[test]
fn loading_no_sessions_clears_the_selection() {
    let mut st = loaded();
    st.set_sessions(Vec::new());
    assert_eq!(selected(&st), (None, None));
    assert!(st.selection.is_none());
}

#[test]
fn selection_follows_the_name_across_a_reload() {
    let mut st = loaded();
    st.move_down();
    assert_eq!(st.selected_session_name(), Some("beta"));
    let reordered = vec![session("beta", &[("0", "logs")]), session("alpha", &[])];
    st.set_sessions(reordered);
    assert_eq!(selected(&st), (Some(0), None));
    assert_eq!(st.selected_session_name(), Some("beta"));
}

#[test]
fn a_selected_window_survives_a_reload_or_falls_back_to_its_session() {
    let mut st = loaded();
    st.expand_selected_session();
    st.move_down();
    st.move_down();
    assert_eq!(selected(&st), (Some(0), Some(1)));
    assert_eq!(
        st.selection,
        Some(TreeSelection::Window {
            session_name: String::from("alpha"),
            window_index: String::from("1"),
        })
    );
    st.set_sessions(vec![session("x", &[]), session("alpha", &[("0", "a"), ("1", "b")])]);
    assert_eq!(selected(&st), (Some(1), Some(1)));
    st.set_sessions(vec![session("alpha", &[("0", "a")])]);
    assert_eq!(selected(&st), (Some(0), None));
    st.set_sessions(vec![session("other", &[])]);
    assert_eq!(selected(&st), (Some(0), None));
    assert_eq!(st.selected_session_name(), Some("other"));
}

#[test]
fn expanded_sessions_that_vanish_are_forgotten() {
    let mut st = loaded();
    st.expand_selected_session();
    assert!(names_contain(&st.expanded_sessions, &String::from("alpha")));
    st.set_sessions(vec![session("beta", &[])]);
    assert!(!names_contain(&st.expanded_sessions, &String::from("alpha")));
    st.set_sessions(sample());
    assert_eq!(st.tree_rows().len(), 3);
}

#[test]
fn moving_wraps_around() {
    let mut st = loaded();
    st.move_up();
    assert_eq!(selected(&st), (Some(2), None));
    st.move_down();
    assert_eq!(selected(&st), (Some(0), None));
    st.move_down();
    st.move_down();
    assert_eq!(selected(&st), (Some(2), None));
    st.move_down();
    assert_eq!(selected(&st), (Some(0), None));
}

#[test]
fn moving_down_then_up_returns_to_the_same_row() {
    let mut st = loaded();
    st.expand_selected_session();
    for _ in 0..4 {
        let before = selected(&st);
        st.move_down();
        st.move_up();
        assert_eq!(selected(&st), before);
        st.move_up();
        st.move_down();
        assert_eq!(selected(&st), before);
        st.move_down();
    }
}

#[test]
fn moving_without_sessions_does_nothing() {
    let mut st = State::default();
    st.move_down();
    st.move_up();
    assert_eq!(selected(&st), (None, None));
}

#[test]
fn expanding_shows_the_windows() {
    let mut st = loaded();
    st.expand_selected_session();
    assert_eq!(
        st.tree_rows(),
        vec![row(0, None), row(0, Some(0)), row(0, Some(1)), row(1, None), row(2, None)]
    );
    st.move_down();
    assert_eq!(selected(&st), (Some(0), Some(0)));
    assert_eq!(st.selected_window_index(), Some("0"));
    assert_eq!(st.selected_window_ref().map(|w| w.name.as_str()), Some("shell"));
}

#[test]
fn collapsing_selects_the_session() {
    let mut st = loaded();
    st.expand_selected_session();
    st.move_down();
    st.collapse_selected_session();
    assert_eq!(selected(&st), (Some(0), None));
    assert_eq!(st.tree_rows().len(), 3);
    st.expand_selected_session();
    st.move_down();
    st.back();
    assert_eq!(selected(&st), (Some(0), None));
    assert_eq!(st.tree_rows().len(), 3);
}

#[test]
fn toggling_twice_restores_the_rows() {
    let mut st = loaded();
    let rows = st.tree_rows();
    st.toggle_expand();
    assert_eq!(st.tree_rows().len(), 5);
    st.toggle_expand();
    assert_eq!(st.tree_rows(), rows);
    assert_eq!(selected(&st), (Some(0), None));
}

#[test]
fn select_cycles_the_windows_of_an_expanded_session() {
    let mut st = loaded();
    st.expand_selected_session();
    st.select();
    assert_eq!(selected(&st), (Some(0), Some(0)));
    st.select();
    assert_eq!(selected(&st), (Some(0), Some(1)));
    st.select();
    assert_eq!(selected(&st), (Some(0), Some(0)));
}

#[test]
fn select_on_a_session_without_windows_does_nothing() {
    let mut st = loaded();
    st.move_up();
    assert_eq!(st.selected_session_name(), Some("gamma"));
    st.select();
    assert_eq!(selected(&st), (Some(2), None));
}

#[test]
fn focus_cycles_through_three_regions() {
    let mut st = loaded();
    assert_eq!(st.focus_label(), "tree");
    st.cycle_focus();
    assert_eq!(st.focus, FocusRegion::Details);
    assert_eq!(st.focus_label(), "details");
    st.cycle_focus();
    assert_eq!(st.focus_label(), "help");
    st.cycle_focus();
    assert_eq!(st.focus, FocusRegion::Tree);
    st.focus = FocusRegion::Modal;
    assert_eq!(st.focus_label(), "modal");
    st.cycle_focus();
    assert_eq!(st.focus, FocusRegion::Tree);
}

#[test]
fn selecting_by_name_and_identity() {
    let mut st = loaded();
    st.select_session_by_name("beta");
    assert_eq!(selected(&st), (Some(1), None));
    st.select_session_by_name("nope");
    assert_eq!(selected(&st), (Some(1), None));
    st.expand_selected_session();
    st.select_window_by_identity("alpha", "1");
    assert_eq!(selected(&st), (Some(0), None));
    st.select_session_by_name("alpha");
    st.expand_selected_session();
    st.select_session_by_name("beta");
    st.select_window_by_identity("alpha", "1");
    assert_eq!(selected(&st), (Some(0), Some(1)));
    st.select_window_by_identity("alpha", "9");
    assert_eq!(selected(&st), (Some(0), Some(1)));
}

#[test]
fn filter_shows_matching_sessions_and_windows() {
    let mut st = loaded();
    st.start_filter();
    assert!(st.filter_mode);
    for c in "LOG".chars() {
        st.append_filter_char(c);
    }
    assert_eq!(st.filter_query, "LOG");
    assert!(st.is_filter_active());
    assert_eq!(st.tree_rows(), vec![row(1, None), row(1, Some(0))]);
    assert_eq!(selected(&st), (Some(1), None));
    st.stop_filter();
    assert!(!st.filter_mode);
    assert_eq!(st.filter_query, "LOG");
}

#[test]
fn filter_matches_window_indexes() {
    let mut st = loaded();
    st.append_filter_char('1');
    assert_eq!(st.tree_rows(), vec![row(0, None), row(0, Some(1))]);
}

#[test]
fn filter_that_hides_everything_clears_the_selection() {
    let mut st = loaded();
    st.append_filter_char('z');
    assert!(st.tree_rows().is_empty());
    assert_eq!(selected(&st), (None, None));
    assert!(st.selection.is_none());
    st.clear_filter();
    assert_eq!(st.filter_query, "");
    assert_eq!(selected(&st), (Some(0), None));
}

#[test]
fn typing_then_deleting_a_filter_character_restores_the_rows() {
    let mut st = loaded();
    st.append_filter_char('a');
    let query = st.filter_query.clone();
    let rows = st.tree_rows();
    st.append_filter_char('m');
    st.pop_filter_char();
    assert_eq!(st.filter_query, query);
    assert_eq!(st.tree_rows(), rows);
}

#[test]
fn whitespace_filter_is_not_active() {
    let mut st = loaded();
    st.append_filter_char(' ');
    assert!(!st.is_filter_active());
    assert_eq!(st.tree_rows().len(), 3);
    st.pop_filter_char();
    st.pop_filter_char();
    assert_eq!(st.filter_query, "");
}

#[test]
fn selected_refs() {
    let st = loaded();
    assert_eq!(st.selected_session_ref().map(|s| s.name.as_str()), Some("alpha"));
    assert!(st.selected_window_ref().is_none());
    let empty = State::default();
    assert!(empty.selected_session_ref().is_none());
    assert!(empty.selected_session_name().is_none());
}
