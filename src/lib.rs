//! Process management for a multi-process proxy: listener configurations,
//! the framed command channel between the master and its workers, and the
//! decisions taken when workers are launched and started.

pub mod channel;
pub mod config;
pub mod frame;
pub mod launch;
pub mod locate;
pub mod worker;
