//! Network interface statistics.
use vstd::prelude::*;

use crate::measurement::distinct_keys;
use crate::measurement::insert_all;
use crate::measurement::items_view;
use crate::measurement::lemma_lookup_after_inserts_from_item;
use crate::measurement::lemma_lookup_after_inserts_last_wins;
use crate::measurement::lookup_after_inserts;
use crate::measurement::map_get;
use crate::measurement::map_lookup;
use crate::measurement::Measurement;
use crate::measurement::MeasurementValue;
use crate::sysstat::config::AllNetworkStatConfig;
use crate::sysstat::config::HasBaseConfig;
use crate::sysstat::config::NetworkStatConfig;
use crate::sysstat::config::SysStatConfig;
use crate::sysstat::State;
use crate::sysstat::StateFromConfig;
use crate::sysstat::config::NetworkConfig;

verus! {

/// The figures of one network interface, as IEEE-754 binary64 bit patterns.
pub struct NetworkInfo {
    pub received: u64,
    pub total_received: u64,
    pub transmitted: u64,
    pub total_transmitted: u64,
    pub packets_received: u64,
    pub total_packets_received: u64,
    pub packets_transmitted: u64,
    pub total_packets_transmitted: u64,
    pub errors_on_received: u64,
    pub total_errors_on_received: u64,
}

/// The items reported for a network interface, in the order they are stored.
pub open spec fn network_items(info: NetworkInfo, cfg: NetworkStatConfig) -> Seq<(bool, Seq<char>, MeasurementValue)> {
    seq![
        (cfg.received, cfg.received_name@, MeasurementValue::Float(info.received)),
        (cfg.total_received, cfg.total_received_name@, MeasurementValue::Float(info.total_received)),
        (cfg.transmitted, cfg.transmitted_name@, MeasurementValue::Float(info.transmitted)),
        (cfg.total_transmitted, cfg.total_transmitted_name@, MeasurementValue::Float(info.total_transmitted)),
        (cfg.packets_received, cfg.packets_received_name@, MeasurementValue::Float(info.packets_received)),
        (cfg.total_packets_received, cfg.total_packets_received_name@, MeasurementValue::Float(info.total_packets_received)),
        (cfg.packets_transmitted, cfg.packets_transmitted_name@, MeasurementValue::Float(info.packets_transmitted)),
        (cfg.total_packets_transmitted, cfg.total_packets_transmitted_name@, MeasurementValue::Float(info.total_packets_transmitted)),
        (cfg.errors_on_received, cfg.errors_on_received_name@, MeasurementValue::Float(info.errors_on_received)),
        (cfg.total_errors_on_received, cfg.total_errors_on_received_name@, MeasurementValue::Float(info.total_errors_on_received)),
    ]
}

/// `v` is the map of the enabled figures of an interface, each under its
/// configured name.
pub open spec fn network_value_ok(v: MeasurementValue, info: NetworkInfo, cfg: NetworkStatConfig) -> bool {
    &&& v is Dict
    &&& distinct_keys(v->Dict_0@)
    &&& forall|k: Seq<char>|
        #[trigger] map_lookup(v->Dict_0@, k) == lookup_after_inserts(network_items(info, cfg), k)
}

/// The map of the figures of an interface that the configuration enables.
pub fn get_network_info_measurements(info: &NetworkInfo, cfg: &NetworkStatConfig) -> (v: MeasurementValue)
    ensures
        network_value_ok(v, *info, *cfg),
{
    let items = vec![
        (cfg.received, cfg.received_name.clone(), MeasurementValue::Float(info.received)),
        (cfg.total_received, cfg.total_received_name.clone(), MeasurementValue::Float(info.total_received)),
        (cfg.transmitted, cfg.transmitted_name.clone(), MeasurementValue::Float(info.transmitted)),
        (cfg.total_transmitted, cfg.total_transmitted_name.clone(), MeasurementValue::Float(info.total_transmitted)),
        (cfg.packets_received, cfg.packets_received_name.clone(), MeasurementValue::Float(info.packets_received)),
        (cfg.total_packets_received, cfg.total_packets_received_name.clone(), MeasurementValue::Float(info.total_packets_received)),
        (cfg.packets_transmitted, cfg.packets_transmitted_name.clone(), MeasurementValue::Float(info.packets_transmitted)),
        (cfg.total_packets_transmitted, cfg.total_packets_transmitted_name.clone(), MeasurementValue::Float(info.total_packets_transmitted)),
        (cfg.errors_on_received, cfg.errors_on_received_name.clone(), MeasurementValue::Float(info.errors_on_received)),
        (cfg.total_errors_on_received, cfg.total_errors_on_received_name.clone(), MeasurementValue::Float(info.total_errors_on_received)),
    ];
    assert(items_view(items@) =~= network_items(*info, *cfg));
    MeasurementValue::Dict(insert_all(items))
}

pub fn copy_network_stat_config(c: &NetworkStatConfig) -> (r: NetworkStatConfig)
    ensures
        r == *c,
{
    NetworkStatConfig {
        received: c.received,
        received_name: c.received_name.clone(),
        total_received: c.total_received,
        total_received_name: c.total_received_name.clone(),
        transmitted: c.transmitted,
        transmitted_name: c.transmitted_name.clone(),
        total_transmitted: c.total_transmitted,
        total_transmitted_name: c.total_transmitted_name.clone(),
        packets_received: c.packets_received,
        packets_received_name: c.packets_received_name.clone(),
        total_packets_received: c.total_packets_received,
        total_packets_received_name: c.total_packets_received_name.clone(),
        packets_transmitted: c.packets_transmitted,
        packets_transmitted_name: c.packets_transmitted_name.clone(),
        total_packets_transmitted: c.total_packets_transmitted,
        total_packets_transmitted_name: c.total_packets_transmitted_name.clone(),
        errors_on_received: c.errors_on_received,
        errors_on_received_name: c.errors_on_received_name.clone(),
        total_errors_on_received: c.total_errors_on_received,
        total_errors_on_received_name: c.total_errors_on_received_name.clone(),
    }
}

fn copy_by_name(v: &Vec<(String, NetworkStatConfig)>) -> (r: Vec<(String, NetworkStatConfig)>)
    ensures
        r@ == v@,
{
    let mut r: Vec<(String, NetworkStatConfig)> = Vec::new();
    for i in 0..v.len()
        invariant
            r@ == v@.take(i as int),
    {
        r.push((v[i].0.clone(), copy_network_stat_config(&v[i].1)));
        assert(r@ =~= v@.take(i + 1));
    }
    assert(v@.take(v@.len() as int) =~= v@);
    r
}

/// What the network statistics loop keeps between two rounds.
pub struct NetworkState {
    pub interval: u64,
    pub send_to: Vec<String>,
    pub all_networks: AllNetworkStatConfig,
    pub by_name: Vec<(String, NetworkStatConfig)>,
}

/// The configuration that applies to the interface `name`: the one for all
/// interfaces when that is enabled, else the one given for that name, if any.
pub open spec fn network_config_of(s: NetworkState, name: Seq<char>) -> Option<NetworkStatConfig> {
    if s.all_networks.enable {
        Some(s.all_networks.config)
    } else {
        map_lookup(s.by_name@, name)
    }
}

impl NetworkState {
    /// This state is the one that configuration `c` and targets `addrs` give.
    pub open spec fn built_from(self, c: NetworkConfig, addrs: Seq<String>) -> bool {
        &&& self.interval == c.base.spec_interval_ms()
        &&& self.send_to@ == addrs
        &&& self.all_networks == c.all_networks
        &&& self.by_name@ == c.by_name@
    }

    /// The configuration that applies to the interface `name`, if any.
    pub fn config_for(&self, name: &String) -> (r: Option<&NetworkStatConfig>)
        ensures
            match r {
                Some(c) => network_config_of(*self, name@) == Some(*c),
                None => network_config_of(*self, name@) is None,
            },
    {
        if self.all_networks.enable {
            Some(&self.all_networks.config)
        } else {
            map_get(&self.by_name, name)
        }
    }

    /// The measurements of one round, one per interface in the order given:
    /// an interface without a configuration that applies to it gives none;
    /// any other gives a measurement named after it whose value is the map
    /// of its enabled figures.
    pub fn measurements(&self, interfaces: &Vec<(String, NetworkInfo)>) -> (ms: Vec<Option<Measurement>>)
        ensures
            ms@.len() == interfaces@.len(),
            forall|i: int|
                0 <= i < ms@.len() ==> match network_config_of(*self, interfaces@[i].0@) {
                    None => (#[trigger] ms@[i]) is None,
                    Some(cfg) => ms@[i] matches Some(m) && m.name == interfaces@[i].0 && network_value_ok(
                        m.value,
                        interfaces@[i].1,
                        cfg,
                    ),
                },
    {
        let mut ms: Vec<Option<Measurement>> = Vec::new();
        for i in 0..interfaces.len()
            invariant
                ms@.len() == i,
                forall|j: int|
                    0 <= j < i ==> match network_config_of(*self, interfaces@[j].0@) {
                        None => (#[trigger] ms@[j]) is None,
                        Some(cfg) => ms@[j] matches Some(m) && m.name == interfaces@[j].0
                            && network_value_ok(m.value, interfaces@[j].1, cfg),
                    },
        {
            let (name, info) = &interfaces[i];
            match self.config_for(name) {
                Some(cfg) => {
                    let v = get_network_info_measurements(info, cfg);
                    ms.push(Some(Measurement::new(name.clone(), v)));
                },
                None => {
                    ms.push(None);
                },
            }
        }
        ms
    }
}

impl StateFromConfig for NetworkState {
    /// The state of the network statistics loop, if the configuration has a
    /// network section.
    fn new_from_config(config: &SysStatConfig, addrs: Vec<String>) -> (r: Option<NetworkState>)
        ensures
            r is Some <==> config.network is Some,
            r matches Some(s) ==> s.built_from(config.network->0, addrs@),
    {
        match &config.network {
            Some(c) => Some(
                NetworkState {
                    interval: c.interval_ms(),
                    send_to: addrs,
                    all_networks: AllNetworkStatConfig {
                        enable: c.all_networks.enable,
                        config: copy_network_stat_config(&c.all_networks.config),
                    },
                    by_name: copy_by_name(&c.by_name),
                },
            ),
            None => None,
        }
    }
}

impl State for NetworkState {
    fn interval(&self) -> (i: u64)
        ensures
            i == self.interval,
    {
        self.interval
    }
}

/// The map of a network interface stores each enabled figure under its own
/// configured name with its own value (a later enabled figure with the same
/// name replaces it), and stores nothing else.
#[verifier::spinoff_prover]
#[verifier::rlimit(80)]
pub proof fn lemma_network_items(info: NetworkInfo, cfg: NetworkStatConfig)
    ensures
        (cfg.received && !(cfg.total_received && cfg.total_received_name@ == cfg.received_name@) && !(cfg.transmitted && cfg.transmitted_name@ == cfg.received_name@) && !(cfg.total_transmitted && cfg.total_transmitted_name@ == cfg.received_name@) && !(cfg.packets_received && cfg.packets_received_name@ == cfg.received_name@) && !(cfg.total_packets_received && cfg.total_packets_received_name@ == cfg.received_name@) && !(cfg.packets_transmitted && cfg.packets_transmitted_name@ == cfg.received_name@) && !(cfg.total_packets_transmitted && cfg.total_packets_transmitted_name@ == cfg.received_name@) && !(cfg.errors_on_received && cfg.errors_on_received_name@ == cfg.received_name@) && !(cfg.total_errors_on_received && cfg.total_errors_on_received_name@ == cfg.received_name@)) ==> lookup_after_inserts(network_items(info, cfg), cfg.received_name@) == Some(MeasurementValue::Float(info.received)),
        (cfg.total_received && !(cfg.transmitted && cfg.transmitted_name@ == cfg.total_received_name@) && !(cfg.total_transmitted && cfg.total_transmitted_name@ == cfg.total_received_name@) && !(cfg.packets_received && cfg.packets_received_name@ == cfg.total_received_name@) && !(cfg.total_packets_received && cfg.total_packets_received_name@ == cfg.total_received_name@) && !(cfg.packets_transmitted && cfg.packets_transmitted_name@ == cfg.total_received_name@) && !(cfg.total_packets_transmitted && cfg.total_packets_transmitted_name@ == cfg.total_received_name@) && !(cfg.errors_on_received && cfg.errors_on_received_name@ == cfg.total_received_name@) && !(cfg.total_errors_on_received && cfg.total_errors_on_received_name@ == cfg.total_received_name@)) ==> lookup_after_inserts(network_items(info, cfg), cfg.total_received_name@) == Some(MeasurementValue::Float(info.total_received)),
        (cfg.transmitted && !(cfg.total_transmitted && cfg.total_transmitted_name@ == cfg.transmitted_name@) && !(cfg.packets_received && cfg.packets_received_name@ == cfg.transmitted_name@) && !(cfg.total_packets_received && cfg.total_packets_received_name@ == cfg.transmitted_name@) && !(cfg.packets_transmitted && cfg.packets_transmitted_name@ == cfg.transmitted_name@) && !(cfg.total_packets_transmitted && cfg.total_packets_transmitted_name@ == cfg.transmitted_name@) && !(cfg.errors_on_received && cfg.errors_on_received_name@ == cfg.transmitted_name@) && !(cfg.total_errors_on_received && cfg.total_errors_on_received_name@ == cfg.transmitted_name@)) ==> lookup_after_inserts(network_items(info, cfg), cfg.transmitted_name@) == Some(MeasurementValue::Float(info.transmitted)),
        (cfg.total_transmitted && !(cfg.packets_received && cfg.packets_received_name@ == cfg.total_transmitted_name@) && !(cfg.total_packets_received && cfg.total_packets_received_name@ == cfg.total_transmitted_name@) && !(cfg.packets_transmitted && cfg.packets_transmitted_name@ == cfg.total_transmitted_name@) && !(cfg.total_packets_transmitted && cfg.total_packets_transmitted_name@ == cfg.total_transmitted_name@) && !(cfg.errors_on_received && cfg.errors_on_received_name@ == cfg.total_transmitted_name@) && !(cfg.total_errors_on_received && cfg.total_errors_on_received_name@ == cfg.total_transmitted_name@)) ==> lookup_after_inserts(network_items(info, cfg), cfg.total_transmitted_name@) == Some(MeasurementValue::Float(info.total_transmitted)),
        (cfg.packets_received && !(cfg.total_packets_received && cfg.total_packets_received_name@ == cfg.packets_received_name@) && !(cfg.packets_transmitted && cfg.packets_transmitted_name@ == cfg.packets_received_name@) && !(cfg.total_packets_transmitted && cfg.total_packets_transmitted_name@ == cfg.packets_received_name@) && !(cfg.errors_on_received && cfg.errors_on_received_name@ == cfg.packets_received_name@) && !(cfg.total_errors_on_received && cfg.total_errors_on_received_name@ == cfg.packets_received_name@)) ==> lookup_after_inserts(network_items(info, cfg), cfg.packets_received_name@) == Some(MeasurementValue::Float(info.packets_received)),
        (cfg.total_packets_received && !(cfg.packets_transmitted && cfg.packets_transmitted_name@ == cfg.total_packets_received_name@) && !(cfg.total_packets_transmitted && cfg.total_packets_transmitted_name@ == cfg.total_packets_received_name@) && !(cfg.errors_on_received && cfg.errors_on_received_name@ == cfg.total_packets_received_name@) && !(cfg.total_errors_on_received && cfg.total_errors_on_received_name@ == cfg.total_packets_received_name@)) ==> lookup_after_inserts(network_items(info, cfg), cfg.total_packets_received_name@) == Some(MeasurementValue::Float(info.total_packets_received)),
        (cfg.packets_transmitted && !(cfg.total_packets_transmitted && cfg.total_packets_transmitted_name@ == cfg.packets_transmitted_name@) && !(cfg.errors_on_received && cfg.errors_on_received_name@ == cfg.packets_transmitted_name@) && !(cfg.total_errors_on_received && cfg.total_errors_on_received_name@ == cfg.packets_transmitted_name@)) ==> lookup_after_inserts(network_items(info, cfg), cfg.packets_transmitted_name@) == Some(MeasurementValue::Float(info.packets_transmitted)),
        (cfg.total_packets_transmitted && !(cfg.errors_on_received && cfg.errors_on_received_name@ == cfg.total_packets_transmitted_name@) && !(cfg.total_errors_on_received && cfg.total_errors_on_received_name@ == cfg.total_packets_transmitted_name@)) ==> lookup_after_inserts(network_items(info, cfg), cfg.total_packets_transmitted_name@) == Some(MeasurementValue::Float(info.total_packets_transmitted)),
        (cfg.errors_on_received && !(cfg.total_errors_on_received && cfg.total_errors_on_received_name@ == cfg.errors_on_received_name@)) ==> lookup_after_inserts(network_items(info, cfg), cfg.errors_on_received_name@) == Some(MeasurementValue::Float(info.errors_on_received)),
        (cfg.total_errors_on_received) ==> lookup_after_inserts(network_items(info, cfg), cfg.total_errors_on_received_name@) == Some(MeasurementValue::Float(info.total_errors_on_received)),
        forall|k: Seq<char>|
            (#[trigger] lookup_after_inserts(network_items(info, cfg), k)) is Some ==> ((cfg.received && k == cfg.received_name@ && lookup_after_inserts(network_items(info, cfg), k) == Some(MeasurementValue::Float(info.received)))
                || (cfg.total_received && k == cfg.total_received_name@ && lookup_after_inserts(network_items(info, cfg), k) == Some(MeasurementValue::Float(info.total_received)))
                || (cfg.transmitted && k == cfg.transmitted_name@ && lookup_after_inserts(network_items(info, cfg), k) == Some(MeasurementValue::Float(info.transmitted)))
                || (cfg.total_transmitted && k == cfg.total_transmitted_name@ && lookup_after_inserts(network_items(info, cfg), k) == Some(MeasurementValue::Float(info.total_transmitted)))
                || (cfg.packets_received && k == cfg.packets_received_name@ && lookup_after_inserts(network_items(info, cfg), k) == Some(MeasurementValue::Float(info.packets_received)))
                || (cfg.total_packets_received && k == cfg.total_packets_received_name@ && lookup_after_inserts(network_items(info, cfg), k) == Some(MeasurementValue::Float(info.total_packets_received)))
                || (cfg.packets_transmitted && k == cfg.packets_transmitted_name@ && lookup_after_inserts(network_items(info, cfg), k) == Some(MeasurementValue::Float(info.packets_transmitted)))
                || (cfg.total_packets_transmitted && k == cfg.total_packets_transmitted_name@ && lookup_after_inserts(network_items(info, cfg), k) == Some(MeasurementValue::Float(info.total_packets_transmitted)))
                || (cfg.errors_on_received && k == cfg.errors_on_received_name@ && lookup_after_inserts(network_items(info, cfg), k) == Some(MeasurementValue::Float(info.errors_on_received)))
                || (cfg.total_errors_on_received && k == cfg.total_errors_on_received_name@ && lookup_after_inserts(network_items(info, cfg), k) == Some(MeasurementValue::Float(info.total_errors_on_received)))),
{
    let items = network_items(info, cfg);
    if cfg.received && !(cfg.total_received && cfg.total_received_name@ == cfg.received_name@) && !(cfg.transmitted && cfg.transmitted_name@ == cfg.received_name@) && !(cfg.total_transmitted && cfg.total_transmitted_name@ == cfg.received_name@) && !(cfg.packets_received && cfg.packets_received_name@ == cfg.received_name@) && !(cfg.total_packets_received && cfg.total_packets_received_name@ == cfg.received_name@) && !(cfg.packets_transmitted && cfg.packets_transmitted_name@ == cfg.received_name@) && !(cfg.total_packets_transmitted && cfg.total_packets_transmitted_name@ == cfg.received_name@) && !(cfg.errors_on_received && cfg.errors_on_received_name@ == cfg.received_name@) && !(cfg.total_errors_on_received && cfg.total_errors_on_received_name@ == cfg.received_name@) {
        lemma_lookup_after_inserts_last_wins(items, 0);
    }
    if cfg.total_received && !(cfg.transmitted && cfg.transmitted_name@ == cfg.total_received_name@) && !(cfg.total_transmitted && cfg.total_transmitted_name@ == cfg.total_received_name@) && !(cfg.packets_received && cfg.packets_received_name@ == cfg.total_received_name@) && !(cfg.total_packets_received && cfg.total_packets_received_name@ == cfg.total_received_name@) && !(cfg.packets_transmitted && cfg.packets_transmitted_name@ == cfg.total_received_name@) && !(cfg.total_packets_transmitted && cfg.total_packets_transmitted_name@ == cfg.total_received_name@) && !(cfg.errors_on_received && cfg.errors_on_received_name@ == cfg.total_received_name@) && !(cfg.total_errors_on_received && cfg.total_errors_on_received_name@ == cfg.total_received_name@) {
        lemma_lookup_after_inserts_last_wins(items, 1);
    }
    if cfg.transmitted && !(cfg.total_transmitted && cfg.total_transmitted_name@ == cfg.transmitted_name@) && !(cfg.packets_received && cfg.packets_received_name@ == cfg.transmitted_name@) && !(cfg.total_packets_received && cfg.total_packets_received_name@ == cfg.transmitted_name@) && !(cfg.packets_transmitted && cfg.packets_transmitted_name@ == cfg.transmitted_name@) && !(cfg.total_packets_transmitted && cfg.total_packets_transmitted_name@ == cfg.transmitted_name@) && !(cfg.errors_on_received && cfg.errors_on_received_name@ == cfg.transmitted_name@) && !(cfg.total_errors_on_received && cfg.total_errors_on_received_name@ == cfg.transmitted_name@) {
        lemma_lookup_after_inserts_last_wins(items, 2);
    }
    if cfg.total_transmitted && !(cfg.packets_received && cfg.packets_received_name@ == cfg.total_transmitted_name@) && !(cfg.total_packets_received && cfg.total_packets_received_name@ == cfg.total_transmitted_name@) && !(cfg.packets_transmitted && cfg.packets_transmitted_name@ == cfg.total_transmitted_name@) && !(cfg.total_packets_transmitted && cfg.total_packets_transmitted_name@ == cfg.total_transmitted_name@) && !(cfg.errors_on_received && cfg.errors_on_received_name@ == cfg.total_transmitted_name@) && !(cfg.total_errors_on_received && cfg.total_errors_on_received_name@ == cfg.total_transmitted_name@) {
        lemma_lookup_after_inserts_last_wins(items, 3);
    }
    if cfg.packets_received && !(cfg.total_packets_received && cfg.total_packets_received_name@ == cfg.packets_received_name@) && !(cfg.packets_transmitted && cfg.packets_transmitted_name@ == cfg.packets_received_name@) && !(cfg.total_packets_transmitted && cfg.total_packets_transmitted_name@ == cfg.packets_received_name@) && !(cfg.errors_on_received && cfg.errors_on_received_name@ == cfg.packets_received_name@) && !(cfg.total_errors_on_received && cfg.total_errors_on_received_name@ == cfg.packets_received_name@) {
        lemma_lookup_after_inserts_last_wins(items, 4);
    }
    if cfg.total_packets_received && !(cfg.packets_transmitted && cfg.packets_transmitted_name@ == cfg.total_packets_received_name@) && !(cfg.total_packets_transmitted && cfg.total_packets_transmitted_name@ == cfg.total_packets_received_name@) && !(cfg.errors_on_received && cfg.errors_on_received_name@ == cfg.total_packets_received_name@) && !(cfg.total_errors_on_received && cfg.total_errors_on_received_name@ == cfg.total_packets_received_name@) {
        lemma_lookup_after_inserts_last_wins(items, 5);
    }
    if cfg.packets_transmitted && !(cfg.total_packets_transmitted && cfg.total_packets_transmitted_name@ == cfg.packets_transmitted_name@) && !(cfg.errors_on_received && cfg.errors_on_received_name@ == cfg.packets_transmitted_name@) && !(cfg.total_errors_on_received && cfg.total_errors_on_received_name@ == cfg.packets_transmitted_name@) {
        lemma_lookup_after_inserts_last_wins(items, 6);
    }
    if cfg.total_packets_transmitted && !(cfg.errors_on_received && cfg.errors_on_received_name@ == cfg.total_packets_transmitted_name@) && !(cfg.total_errors_on_received && cfg.total_errors_on_received_name@ == cfg.total_packets_transmitted_name@) {
        lemma_lookup_after_inserts_last_wins(items, 7);
    }
    if cfg.errors_on_received && !(cfg.total_errors_on_received && cfg.total_errors_on_received_name@ == cfg.errors_on_received_name@) {
        lemma_lookup_after_inserts_last_wins(items, 8);
    }
    if cfg.total_errors_on_received {
        lemma_lookup_after_inserts_last_wins(items, 9);
    }
    assert forall|k: Seq<char>|
        (#[trigger] lookup_after_inserts(network_items(info, cfg), k)) is Some implies ((cfg.received && k == cfg.received_name@ && lookup_after_inserts(network_items(info, cfg), k) == Some(MeasurementValue::Float(info.received)))
                || (cfg.total_received && k == cfg.total_received_name@ && lookup_after_inserts(network_items(info, cfg), k) == Some(MeasurementValue::Float(info.total_received)))
                || (cfg.transmitted && k == cfg.transmitted_name@ && lookup_after_inserts(network_items(info, cfg), k) == Some(MeasurementValue::Float(info.transmitted)))
                || (cfg.total_transmitted && k == cfg.total_transmitted_name@ && lookup_after_inserts(network_items(info, cfg), k) == Some(MeasurementValue::Float(info.total_transmitted)))
                || (cfg.packets_received && k == cfg.packets_received_name@ && lookup_after_inserts(network_items(info, cfg), k) == Some(MeasurementValue::Float(info.packets_received)))
                || (cfg.total_packets_received && k == cfg.total_packets_received_name@ && lookup_after_inserts(network_items(info, cfg), k) == Some(MeasurementValue::Float(info.total_packets_received)))
                || (cfg.packets_transmitted && k == cfg.packets_transmitted_name@ && lookup_after_inserts(network_items(info, cfg), k) == Some(MeasurementValue::Float(info.packets_transmitted)))
                || (cfg.total_packets_transmitted && k == cfg.total_packets_transmitted_name@ && lookup_after_inserts(network_items(info, cfg), k) == Some(MeasurementValue::Float(info.total_packets_transmitted)))
                || (cfg.errors_on_received && k == cfg.errors_on_received_name@ && lookup_after_inserts(network_items(info, cfg), k) == Some(MeasurementValue::Float(info.errors_on_received)))
                || (cfg.total_errors_on_received && k == cfg.total_errors_on_received_name@ && lookup_after_inserts(network_items(info, cfg), k) == Some(MeasurementValue::Float(info.total_errors_on_received)))) by {
        lemma_lookup_after_inserts_from_item(items, k);
        if let Some(v) = lookup_after_inserts(items, k) {
            let j = choose|j: int| 0 <= j < items.len() && (#[trigger] items[j]).0 && items[j].1 == k && items[j].2 == v;
            if j == 0 {
            } else if j == 1 {
            } else if j == 2 {
            } else if j == 3 {
            } else if j == 4 {
            } else if j == 5 {
            } else if j == 6 {
            } else if j == 7 {
            } else if j == 8 {
            } else if j == 9 {
            }
        }
    }
}

} // verus!
