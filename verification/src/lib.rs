//! A stage-based task pipeline: agents carry a list of stage parameters and
//! are routed from stage to stage until every stage has been processed.
pub mod agent;
pub mod db;
pub mod error;
pub mod pipeline;
pub mod stage;
mod outside;
pub mod text;
pub mod utils;

pub use agent::{Agent, AgentStage, StageStatus};

use vstd::prelude::*;

verus! {

/// The result type of the library's operations.
pub type Result<T> = std::result::Result<T, error::FlowError>;

} // verus!
