//! Orchestration core of `revdeprun`: acquiring the target package, rendering
//! the R job scripts, decoding what the jobs report, and the bookkeeping of the
//! progress tasks that narrate each step.

pub mod text;
pub mod util;
pub mod json;
pub mod summary;
pub mod r_version;
pub mod workspace;
pub mod scripts;
pub mod phase;
pub mod monitor;
pub mod progress;
pub mod revdep;
pub mod sysreqs;
pub mod acquire;
pub mod cli;
pub mod toolchain;
pub mod pipeline;
