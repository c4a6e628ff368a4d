use vstd::prelude::*;

pub mod config;
pub mod cpu;
pub mod memory;
pub mod load;
pub mod network;
pub mod process;
pub mod disk_usage;
pub mod plugin;

use crate::sysstat::config::SysStatConfig;

verus! {

/// The state of a statistics loop: how often it takes its measurements.
pub trait State {
    fn interval(&self) -> u64;
}

/// The state of a statistics loop that a configuration gives, for the
/// plugins `addrs`; `None` when the configuration has no section for it.
pub trait StateFromConfig: Sized {
    fn new_from_config(config: &SysStatConfig, addrs: Vec<String>) -> Option<Self>;
}

/// The errors of the system statistics plugin.
#[derive(Debug)]
pub enum Error {
    ConfigParseFailed(String),
    FailedToSendMeasurement,
    CannotReadDiskName,
    Utf8Error,
    FailedToStopMainloop,
}

} // verus!
