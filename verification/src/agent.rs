//! The agent: owns a configuration and a registry of tools.
//!
//! The run loop itself waits on an external interrupt and performs terminal
//! output, so it lives with the process entry point, outside this library;
//! it reads the agent's state through the accessors here.

use vstd::prelude::*;
use crate::config::Config;
use crate::tools::{ToolBox, ToolRegistry};

verus! {

/// The top-level component: a configuration and the tools the agent may
/// invoke.
pub struct Agent {
    config: Config,
    tools: ToolRegistry,
}

impl Agent {
    /// The configuration the agent was built with.
    pub closed spec fn spec_config(&self) -> Config {
        self.config
    }

    /// The tools registered with the agent, in registration order.
    pub closed spec fn spec_tools(&self) -> Seq<ToolBox> {
        self.tools@
    }

    /// An agent holding `config` and no tools yet.
    pub fn new(config: Config) -> (a: Agent)
        ensures
            a.spec_config() == config,
            a.spec_tools() == Seq::<ToolBox>::empty(),
    {
        Agent { config, tools: ToolRegistry::new() }
    }

    pub fn config(&self) -> (c: &Config)
        ensures
            *c == self.spec_config(),
    {
        &self.config
    }

    pub fn tools(&self) -> (t: &ToolRegistry)
        ensures
            t@ == self.spec_tools(),
    {
        &self.tools
    }

    /// Adds a tool to the agent's registry; nothing already registered
    /// moves, and the configuration stays as it was.
    pub fn register_tool(&mut self, tool: ToolBox)
        ensures
            final(self).spec_tools() == old(self).spec_tools().push(tool),
            final(self).spec_config() == old(self).spec_config(),
    {
        self.tools.register(tool);
    }
}

} // verus!
