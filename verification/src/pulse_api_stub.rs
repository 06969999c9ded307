//! The registration interface of the Pulse plugin API (v0.1.x).
use vstd::prelude::*;

use crate::error::BmadError;
use crate::output::AgentOutput;

verus! {

/// The version of the Pulse plugin API this plugin is built against.
pub const PLUGIN_API_VERSION: u32 = 1;

/// An executor that Pulse can call by name.
pub trait TaskExecutor: Send + Sync {
    fn executor_name(&self) -> &str;

    fn execute(&self, input: &str) -> Result<AgentOutput, BmadError>;
}

/// Name, version and API version of a plugin.
pub struct PluginMetadata {
    pub name: &'static str,
    pub version: &'static str,
    pub api_version: u32,
}

impl PluginMetadata {
    pub fn new(name: &'static str, version: &'static str, api_version: u32) -> (r: Self)
        ensures
            r.name == name,
            r.version == version,
            r.api_version == api_version,
    {
        Self { name, version, api_version }
    }
}

/// A plugin with the executors it registers.
pub struct PluginRegistration {
    pub metadata: PluginMetadata,
    pub executors: Vec<Box<dyn TaskExecutor>>,
}

impl PluginRegistration {
    pub fn new(metadata: PluginMetadata) -> (r: Self)
        ensures
            r.metadata == metadata,
            r.executors@.len() == 0,
    {
        Self { metadata, executors: Vec::new() }
    }

    pub fn with_task_executor(self, executor: Box<dyn TaskExecutor>) -> (r: Self)
        ensures
            r.metadata == self.metadata,
            r.executors@ == self.executors@.push(executor),
    {
        let PluginRegistration { metadata, mut executors } = self;
        executors.push(executor);
        PluginRegistration { metadata, executors }
    }
}

} // verus!
