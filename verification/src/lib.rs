//! A small process-inspection service: take a fresh snapshot of the
//! operating system's process table and either list the processes it
//! holds or request the termination of one of them by its id string.

pub mod casefold;
pub mod decimal;
pub mod directory;
pub mod snapshot;
pub mod sysapi;
