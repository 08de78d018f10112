use vstd::prelude::*;

verus! {

/// Failures surfaced by the engine core; each carries the offending name.
#[derive(Debug, PartialEq, Eq)]
pub enum EngineError {
    InvalidPath(String),
    DuplicateName(String),
    MissingDependency(String),
    DefaultAgentNotFound(String),
    NameNotAllowed(String),
    ToolNotFound(String),
    AgentNotFound(String),
    InvalidUser(String),
    Cancelled,
}

} // verus!
