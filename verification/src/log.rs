//! The log plugin: it logs every message it receives at a configured level.
use vstd::prelude::*;

verus! {

#[derive(Debug, Clone, Copy, PartialEq, Eq, Structural)]
pub enum LogLevel {
    Trace,
    Debug,
    Info,
    Warn,
    Error,
}

/// The configuration of the log plugin.
pub struct LogConfig {
    pub level: LogLevel,
    pub acknowledge: bool,
}

pub struct LogPlugin {
    pub config: LogConfig,
}

impl LogPlugin {
    pub fn new(config: LogConfig) -> (p: Self)
        ensures
            p.config == config,
    {
        LogPlugin { config }
    }

    /// The level at which received messages are logged.
    pub fn level(&self) -> (l: LogLevel)
        ensures
            l == self.config.level,
    {
        self.config.level
    }
}

pub struct LogPluginBuilder;

impl LogPluginBuilder {
    pub fn new() -> (b: Self) {
        LogPluginBuilder
    }

    pub fn kind_name() -> (s: &'static str)
        ensures
            s@ == "log"@,
    {
        "log"
    }

    /// Builds the plugin that a configuration describes.
    pub fn instantiate(config: LogConfig) -> (p: LogPlugin)
        ensures
            p.config == config,
    {
        LogPlugin::new(config)
    }
}

} // verus!
