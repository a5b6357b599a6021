//! A terminal task list: an ordered store of tasks with a done flag, three
//! filtered views over it, a cursor that addresses tasks by their rank in the
//! active view, and the key handling that drives an interactive session.
pub mod todo;
pub mod record;
pub mod ui;
pub mod session;
