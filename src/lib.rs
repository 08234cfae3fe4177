//! Process inspection core: turns raw per-process counters into the
//! presentation records of a process list, and decides on termination
//! requests.

pub mod percent;
pub mod control;
pub mod snapshot;
