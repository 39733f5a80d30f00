//! What the program draws.

pub mod programs;
