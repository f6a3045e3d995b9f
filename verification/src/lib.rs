//! The resilience layer of a supervisor daemon: a watcher that stages newer
//! builds of the daemon through a restartable background task, and the error
//! taxonomy of the command channel to the privileged launcher process.

pub mod error;
pub mod ident;
pub mod protocol;
pub mod schedule;
pub mod self_updater;
pub mod signal;
pub mod task;
pub mod transport;
