//! Abstraction layer for an ARINC653-style partitioned hypervisor together
//! with a verified build pipeline that turns declarative partition
//! descriptions into the runtime scaffolding wiring them to the hypervisor.
//!
//! The crate has two halves:
//! - the runtime abstraction: typed ports, processes, time and error
//!   handling on top of a hypervisor contract stated as traits;
//! - the build pipeline: a descriptor parser, a partition model builder and
//!   a code generator, all working on plain declaration data.

pub mod prelude;

pub mod types;
pub mod time;
pub mod partition;
pub mod process;
pub mod sampling;
pub mod queuing;
pub mod error;
pub mod semaphore;
pub mod event;
pub mod blackboard;
pub mod buffer;
pub mod mutex;
pub mod schedules;
pub mod limits;
pub mod memory_block;
pub mod decl;
pub mod parse;
pub mod model;
pub mod generate;
