//! The interpreter's run-time model: frames are named by handles, tasks own
//! their spawn ancestry.

pub mod ancestry;
pub mod frame;
pub mod task;
