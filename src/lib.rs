//! Runtime core of an agent engine: namespace paths, unit registries,
//! scoped execution contexts, and the engine with its builder.
use vstd::prelude::*;

pub mod attention;
pub mod config;
pub mod context;
pub mod engine;
pub mod error;
pub mod identity;
pub mod laws;
pub mod names;
pub mod path;
pub mod registry;
pub mod service;
pub mod state;
pub mod text;

verus! {

} // verus!
