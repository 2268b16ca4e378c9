//! The sessions and windows of a tmux server.
use vstd::prelude::*;

verus! {

/// A window of a session.
#[derive(Debug, Clone)]
pub struct Window {
    pub index: String,
    pub name: String,
    pub layout: String,
    pub active_pane_path: String,
    pub activity: u64,
}

/// A tmux session with its windows, in the order tmux lists them.
#[derive(Debug)]
pub struct Session {
    pub name: String,
    pub work_dir: String,
    pub windows: Vec<Window>,
    pub activity: u64,
}

/// A window as plain values.
pub struct WindowView {
    pub index: Seq<char>,
    pub name: Seq<char>,
    pub layout: Seq<char>,
    pub active_pane_path: Seq<char>,
    pub activity: u64,
}

/// A session as plain values.
pub struct SessionView {
    pub name: Seq<char>,
    pub work_dir: Seq<char>,
    pub windows: Seq<WindowView>,
    pub activity: u64,
}

impl View for Window {
    type V = WindowView;

    open spec fn view(&self) -> WindowView {
        WindowView {
            index: self.index@,
            name: self.name@,
            layout: self.layout@,
            active_pane_path: self.active_pane_path@,
            activity: self.activity,
        }
    }
}

impl View for Session {
    type V = SessionView;

    open spec fn view(&self) -> SessionView {
        SessionView {
            name: self.name@,
            work_dir: self.work_dir@,
            windows: self.windows@.map_values(|w: Window| w@),
            activity: self.activity,
        }
    }
}

/// The views of a list of sessions.
pub open spec fn sessions_view(sessions: Seq<Session>) -> Seq<SessionView> {
    sessions.map_values(|s: Session| s@)
}

} // verus!
