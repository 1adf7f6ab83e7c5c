//! Savepoint runs a project's tests whenever a file changes, and commits the
//! changes whenever the tests pass again after they failed.
//!
//! A session works on a branch of its own, whose name starts with `savepoint/`.
//! At its end the commits are squashed into one, on the branch that the session
//! was started from. Two files in the working directory outlive a run: the
//! statefile names that branch, and the error file is there while the last test
//! run failed.
//!
//! All decisions are made here, as turns of a conversation: see [`protocol`].
//! [`session::run`] starts a command, and [`session::Session::resume`] goes on
//! with it. What holds of whole conversations is proved under [`laws`].

pub mod console;
pub mod files;
pub mod finalize;
pub mod git;
pub mod laws;
pub mod merge;
pub mod protocol;
pub mod savepoint;
pub mod session;
pub mod setup;
pub mod start;
pub mod text;
pub mod turn;
pub mod watch;
