//! The apt software-management plugin. It does not run apt yet: an
//! installation is answered as succeeded at once, and other requests get no
//! answer.
use vstd::prelude::*;

use crate::mqtt_sm::InstallResponse;
use crate::mqtt_sm::SoftwareRequest;

verus! {

/// The configuration of the apt plugin.
pub struct Config {
    /// Path to the "apt" binary.
    ///
    /// If not set "apt" from PATH will be used
    pub apt_binary: Option<String>,
}

pub struct SmAptPlugin {
    pub apt_binary_path: Option<String>,
}

impl SmAptPlugin {
    pub fn new(apt_binary_path: Option<String>) -> (p: Self)
        ensures
            p.apt_binary_path == apt_binary_path,
    {
        SmAptPlugin { apt_binary_path }
    }

    /// The reply to a request: an installation succeeds for the package it
    /// names; listing, updating and uninstalling get no reply.
    pub fn handle_message(&self, message: SoftwareRequest) -> (r: Option<InstallResponse>)
        ensures
            match message {
                SoftwareRequest::Install { package_name } => r == Some(
                    InstallResponse::InstallSucceeded { package_name },
                ),
                _ => r is None,
            },
    {
        match message {
            SoftwareRequest::Install { package_name } => Some(
                InstallResponse::InstallSucceeded { package_name },
            ),
            _ => None,
        }
    }
}

pub struct SmAptPluginBuilder;

impl SmAptPluginBuilder {
    pub fn kind_name() -> (s: &'static str)
        ensures
            s@ == "sm_apt"@,
    {
        "sm_apt"
    }

    /// Builds the plugin that a configuration describes.
    pub fn instantiate(config: Config) -> (p: SmAptPlugin)
        ensures
            p.apt_binary_path == config.apt_binary,
    {
        SmAptPlugin::new(config.apt_binary)
    }
}

} // verus!
