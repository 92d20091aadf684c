//! The descriptor parser: turns raw declarations into typed channel and
//! process descriptors, owning all literal-format validation.

pub mod channel;
pub mod process;
pub mod start;
pub mod util;
