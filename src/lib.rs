//! Command-dispatch and session-coordination core of an interactive shell
//! that drives a remote browser-automation session.

pub mod cli;
pub mod dispatch;
pub mod json;
pub mod text;
pub mod types;
pub mod worker;
