//! The system statistics plugin: which statistics loops run, how often,
//! and where their measurements go.
use vstd::prelude::*;

use crate::sysstat::config::HasBaseConfig;
use crate::sysstat::config::SysStatConfig;
use crate::sysstat::cpu::CPUState;
use crate::sysstat::disk_usage::DiskUsageState;
use crate::sysstat::load::LoadState;
use crate::sysstat::memory::MemoryState;
use crate::sysstat::network::NetworkState;
use crate::sysstat::process::ProcessState;
use crate::sysstat::StateFromConfig;

verus! {

/// The plugins that each kind of statistics is sent to, for the kinds that
/// the configuration has.
pub struct AddressConfig {
    pub memory: Option<Vec<String>>,
    pub network: Option<Vec<String>>,
    pub cpu: Option<Vec<String>>,
    pub disk_usage: Option<Vec<String>>,
    pub load: Option<Vec<String>>,
    pub process: Option<Vec<String>>,
}

fn copy_names(v: &Vec<String>) -> (r: Vec<String>)
    ensures
        r@ == v@,
{
    let mut r: Vec<String> = Vec::new();
    for i in 0..v.len()
        invariant
            r@ == v@.take(i as int),
    {
        r.push(v[i].clone());
        assert(r@ =~= v@.take(i + 1));
    }
    assert(v@.take(v@.len() as int) =~= v@);
    r
}

fn send_to_of<C: HasBaseConfig>(c: &Option<C>) -> (r: Option<Vec<String>>)
    ensures
        r is Some <==> c is Some,
        r matches Some(v) ==> v@ == c->0.base().spec_send_to(),
{
    match c {
        Some(c) => Some(copy_names(c.send_to())),
        None => None,
    }
}

/// The statistics loops to run: one for each kind that has both a
/// configuration section and targets.
pub struct Backends {
    pub cpu: Option<CPUState>,
    pub disk_usage: Option<DiskUsageState>,
    pub load: Option<LoadState>,
    pub memory: Option<MemoryState>,
    pub network: Option<NetworkState>,
    pub process: Option<ProcessState>,
}

pub struct SysStatPlugin {
    pub config: SysStatConfig,
    pub addr_config: AddressConfig,
}

fn take_names(v: &Option<Vec<String>>) -> (r: Option<Vec<String>>)
    ensures
        r is Some <==> v is Some,
        r matches Some(x) ==> x@ == v->0@,
{
    match v {
        Some(x) => Some(copy_names(x)),
        None => None,
    }
}

impl SysStatPlugin {
    pub fn new(config: SysStatConfig, addr_config: AddressConfig) -> (p: Self)
        ensures
            p.config == config,
            p.addr_config == addr_config,
    {
        SysStatPlugin { config, addr_config }
    }

    /// The loops that starting the plugin runs, each with its interval and
    /// its targets.
    pub fn backends(&self) -> (b: Backends)
        ensures
            b.cpu is Some <==> (self.addr_config.cpu is Some && self.config.cpu is Some),
            b.cpu matches Some(s) ==> s.built_from(self.config.cpu->0, self.addr_config.cpu->0@),
            b.disk_usage is Some <==> (self.addr_config.disk_usage is Some && self.config.disk_usage is Some),
            b.disk_usage matches Some(s) ==> s.built_from(self.config.disk_usage->0, self.addr_config.disk_usage->0@),
            b.load is Some <==> (self.addr_config.load is Some && self.config.load is Some),
            b.load matches Some(s) ==> s.built_from(self.config.load->0, self.addr_config.load->0@),
            b.memory is Some <==> (self.addr_config.memory is Some && self.config.memory is Some),
            b.memory matches Some(s) ==> s.built_from(self.config.memory->0, self.addr_config.memory->0@),
            b.network is Some <==> (self.addr_config.network is Some && self.config.network is Some),
            b.network matches Some(s) ==> s.built_from(self.config.network->0, self.addr_config.network->0@),
            b.process is Some <==> (self.addr_config.process is Some && self.config.process is Some),
            b.process matches Some(s) ==> s.built_from(self.config.process->0, self.addr_config.process->0@),
    {
        let cpu = match take_names(&self.addr_config.cpu) {
            Some(a) => CPUState::new_from_config(&self.config, a),
            None => None,
        };
        let disk_usage = match take_names(&self.addr_config.disk_usage) {
            Some(a) => DiskUsageState::new_from_config(&self.config, a),
            None => None,
        };
        let load = match take_names(&self.addr_config.load) {
            Some(a) => LoadState::new_from_config(&self.config, a),
            None => None,
        };
        let memory = match take_names(&self.addr_config.memory) {
            Some(a) => MemoryState::new_from_config(&self.config, a),
            None => None,
        };
        let network = match take_names(&self.addr_config.network) {
            Some(a) => NetworkState::new_from_config(&self.config, a),
            None => None,
        };
        let process = match take_names(&self.addr_config.process) {
            Some(a) => ProcessState::new_from_config(&self.config, a),
            None => None,
        };
        Backends { cpu, disk_usage, load, memory, network, process }
    }
}

pub struct SysStatPluginBuilder;

impl SysStatPluginBuilder {
    pub fn kind_name() -> (s: &'static str)
        ensures
            s@ == "sysinfo"@,
    {
        "sysinfo"
    }

    /// Builds the plugin that a configuration describes: every section's
    /// measurements go to the plugins that the section names.
    pub fn instantiate(config: SysStatConfig) -> (p: SysStatPlugin)
        ensures
            p.config == config,
            p.addr_config.memory is Some <==> config.memory is Some,
            p.addr_config.memory matches Some(v) ==> v@ == config.memory->0.base.spec_send_to(),
            p.addr_config.network is Some <==> config.network is Some,
            p.addr_config.network matches Some(v) ==> v@ == config.network->0.base.spec_send_to(),
            p.addr_config.cpu is Some <==> config.cpu is Some,
            p.addr_config.cpu matches Some(v) ==> v@ == config.cpu->0.base.spec_send_to(),
            p.addr_config.disk_usage is Some <==> config.disk_usage is Some,
            p.addr_config.disk_usage matches Some(v) ==> v@ == config.disk_usage->0.base.spec_send_to(),
            p.addr_config.load is Some <==> config.load is Some,
            p.addr_config.load matches Some(v) ==> v@ == config.load->0.base.spec_send_to(),
            p.addr_config.process is Some <==> config.process is Some,
            p.addr_config.process matches Some(v) ==> v@ == config.process->0.base.spec_send_to(),
    {
        let addr_config = AddressConfig {
            memory: send_to_of(&config.memory),
            network: send_to_of(&config.network),
            cpu: send_to_of(&config.cpu),
            disk_usage: send_to_of(&config.disk_usage),
            load: send_to_of(&config.load),
            process: send_to_of(&config.process),
        };
        SysStatPlugin::new(config, addr_config)
    }
}

} // verus!
