//! Agent roster, request handling and agent-file conversion for the BMAD-METHOD step executor plugin.
use vstd::prelude::*;

pub mod codegen;
pub mod config;
pub mod converter;
pub mod error;
pub mod executor;
pub mod generated;
pub mod metadata;
pub mod output;
pub mod plugin;
pub mod pulse_api_stub;
pub mod registry;
pub mod text;
pub mod verification;

verus! {
} // verus!
