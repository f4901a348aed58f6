//! The gateway as a program: its arguments.

pub mod args;
