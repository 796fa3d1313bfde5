//! The task-execution core of a small interpreter runtime.
//!
//! A [`interpreter::task::Task`] is one independently steppable unit of
//! execution: a lifecycle state, a handle to the frame on top of its call
//! stack, and the task that spawned it, if any. The tasks reachable through
//! the parent links form the task's spawn ancestry, which every contract of
//! this crate describes as a sequence of links.

pub mod interpreter;
