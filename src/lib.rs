//! Launches a command detached from the caller and reports whether the
//! launch itself succeeded.

pub mod sh;
