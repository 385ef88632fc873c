//! A local process supervisor: decides whether a companion background service
//! is already reachable, where its executable lives, and how long to keep
//! polling for readiness after a launch.
//!
//! All decision logic is verified here. The surrounding application performs
//! the actual TCP probes, process spawning and sleeping, and feeds the
//! observed events back into the state machines of this crate.

pub mod locator;
pub mod supervisor;
pub mod waiter;
