//! Plan/execute separation layer for a mod-project workflow tool.
//!
//! A [`step::Plan`] is an ordered list of typed side-effect descriptions
//! ([`step::Step`]). The [`executor::Executor`] either renders the plan as a
//! textual preview (dry-run) or carries it out step by step through one
//! handler per step kind ([`handlers`]), stopping at the first failure.
//!
//! The feature modules build the plans: [`buildcmd`] and [`deploy`] for
//! building and shipping the artifact that [`artifact`] locates, [`scaffold`]
//! and [`skeleton`] for expanding a new project from its template archive,
//! [`devflow`] for the local development loop, and [`server`] and [`config`]
//! for the configuration those features read. Reading that configuration
//! from disk, parsing the command line and prompting are the calling
//! program's work; the library takes and returns plain values.

use vstd::prelude::*;

pub mod artifact;
pub mod buildcmd;
pub mod config;
pub mod deploy;
pub mod devflow;
mod effects;
pub mod error;
pub mod executor;
pub mod handlers;
pub mod scaffold;
pub mod server;
pub mod skeleton;
pub mod step;
pub mod strutil;
pub mod templates;

verus! {

} // verus!
