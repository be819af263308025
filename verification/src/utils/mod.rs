//! What is read from the files of other programs on this machine.

pub mod steam;
