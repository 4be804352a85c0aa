//! Orchestration logic of a live-migration harness: the decisions of the
//! workers, the monitor, the migration controller and the epoch waiter, the
//! instructions they build, and the lookup of program binaries.

pub mod address;
pub mod controller;
pub mod file;
pub mod instruction;
pub mod interrupt;
pub mod monitor;
pub mod programs;
pub mod waiter;
pub mod worker;
