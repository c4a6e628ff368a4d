//! The Cumulocity plugin: its configuration names the software-management
//! plugin to use; it accepts MQTT messages and measurements and does nothing
//! with them yet.
use vstd::prelude::*;

verus! {

/// The configuration of the Cumulocity plugin.
pub struct C8yConfig {
    /// Name of the plugin that handles software-management operations
    pub sm_plugin_name: String,
}

pub struct C8yPlugin {
    pub config: C8yConfig,
}

impl C8yPlugin {
    pub fn new(config: C8yConfig) -> (p: Self)
        ensures
            p.config == config,
    {
        C8yPlugin { config }
    }
}

pub struct C8yPluginBuilder;

impl C8yPluginBuilder {
    pub fn kind_name() -> (s: &'static str)
        ensures
            s@ == "c8y"@,
    {
        "c8y"
    }

    /// Builds the plugin that a configuration describes.
    pub fn instantiate(config: C8yConfig) -> (p: C8yPlugin)
        ensures
            p.config == config,
    {
        C8yPlugin::new(config)
    }
}

} // verus!
