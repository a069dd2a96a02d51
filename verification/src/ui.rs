//! State that the GUI callback reads and writes.

pub mod ui_state;
