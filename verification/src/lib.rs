//! A tmux session dashboard: the session tree and its selection, the parsing of
//! what tmux reports, the commands sent to it, and the decisions of the dashboard.
use vstd::prelude::*;

pub mod app;
pub mod text;
pub mod tmux;
pub mod ui;

verus! {

} // verus!
