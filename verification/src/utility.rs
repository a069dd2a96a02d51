//! Small building blocks shared by the rest of the crate.

pub mod structs;
