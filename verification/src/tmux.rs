//! Sessions and windows as tmux reports them, the parsing of its output and the
//! commands sent to it.
pub mod session;
pub mod parse;
pub mod command;
