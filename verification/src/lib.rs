//! Coordination core of a micro-benchmark harness that measures programs under
//! an instruction-accurate profiler.
//!
//! One binary plays two roles. Started by the user it is the *controller*: it
//! has one profiled re-invocation of itself launched per scenario and binds
//! each scenario to the profiler output of its run. Started under the profiler
//! it is a *worker*: it runs the function of exactly one scenario, found by its
//! position in the submitted sequence, and returns.
//!
//! The library decides; it does not touch the process's surroundings. What
//! the role resolver found comes in as a [`RoleSignal`], and the services that
//! launch workers, read an output and parse it are handed in by the caller.

pub mod config;
pub mod error;
pub mod report;
pub mod role;
pub mod runner;
pub mod scenario;

pub use crate::config::ScenarioConfig;
pub use crate::error::CalliperError;
pub use crate::report::{CallgrindResultFilename, Report};
pub use crate::role::{Role, RoleSignal};
pub use crate::runner::Runner;
pub use crate::scenario::Scenario;
