//! Memory statistics.
use vstd::prelude::*;

use crate::measurement::distinct_keys;
use crate::measurement::insert_all;
use crate::measurement::items_view;
use crate::measurement::lemma_lookup_after_inserts_from_item;
use crate::measurement::lemma_lookup_after_inserts_last_wins;
use crate::measurement::lookup_after_inserts;
use crate::measurement::map_lookup;
use crate::measurement::Measurement;
use crate::measurement::MeasurementValue;
use crate::sysstat::config::HasBaseConfig;
use crate::sysstat::config::SysStatConfig;
use crate::sysstat::State;
use crate::sysstat::StateFromConfig;
use crate::sysstat::config::MemoryConfig;

verus! {

/// The memory figures of the system, as IEEE-754 binary64 bit patterns.
pub struct MemoryInfo {
    pub total_memory: u64,
    pub free_memory: u64,
    pub available_memory: u64,
    pub used_memory: u64,
    pub free_swap: u64,
    pub used_swap: u64,
}

/// What the memory statistics loop keeps between two rounds.
pub struct MemoryState {
    pub interval: u64,
    pub send_to: Vec<String>,
    pub total_memory: bool,
    pub total_memory_name: String,
    pub free_memory: bool,
    pub free_memory_name: String,
    pub available_memory: bool,
    pub available_memory_name: String,
    pub used_memory: bool,
    pub used_memory_name: String,
    pub free_swap: bool,
    pub free_swap_name: String,
    pub used_swap: bool,
    pub used_swap_name: String,
}

/// The items reported for the memory, in the order they are stored.
pub open spec fn memory_items(s: MemoryState, info: MemoryInfo) -> Seq<(bool, Seq<char>, MeasurementValue)> {
    seq![
        (s.total_memory, s.total_memory_name@, MeasurementValue::Float(info.total_memory)),
        (s.free_memory, s.free_memory_name@, MeasurementValue::Float(info.free_memory)),
        (s.available_memory, s.available_memory_name@, MeasurementValue::Float(info.available_memory)),
        (s.used_memory, s.used_memory_name@, MeasurementValue::Float(info.used_memory)),
        (s.free_swap, s.free_swap_name@, MeasurementValue::Float(info.free_swap)),
        (s.used_swap, s.used_swap_name@, MeasurementValue::Float(info.used_swap)),
    ]
}

impl MemoryState {
    /// This state is the one that configuration `c` and targets `addrs` give.
    pub open spec fn built_from(self, c: MemoryConfig, addrs: Seq<String>) -> bool {
        &&& self.interval == c.base.spec_interval_ms()
        &&& self.send_to@ == addrs
        &&& self.total_memory == c.total_memory && self.total_memory_name == c.total_memory_name
        &&& self.free_memory == c.free_memory && self.free_memory_name == c.free_memory_name
        &&& self.available_memory == c.available_memory && self.available_memory_name == c.available_memory_name
        &&& self.used_memory == c.used_memory && self.used_memory_name == c.used_memory_name
        &&& self.free_swap == c.free_swap && self.free_swap_name == c.free_swap_name
        &&& self.used_swap == c.used_swap && self.used_swap_name == c.used_swap_name
    }

    /// The measurement of one round: `memory`, a map of the enabled figures,
    /// each under its configured name.
    pub fn measurement(&self, info: &MemoryInfo) -> (m: Measurement)
        ensures
            m.name@ == "memory"@,
            m.value is Dict,
            distinct_keys(m.value->Dict_0@),
            forall|k: Seq<char>|
                #[trigger] map_lookup(m.value->Dict_0@, k) == lookup_after_inserts(memory_items(*self, *info), k),
    {
        let items = vec![
            (self.total_memory, self.total_memory_name.clone(), MeasurementValue::Float(info.total_memory)),
            (self.free_memory, self.free_memory_name.clone(), MeasurementValue::Float(info.free_memory)),
            (self.available_memory, self.available_memory_name.clone(), MeasurementValue::Float(info.available_memory)),
            (self.used_memory, self.used_memory_name.clone(), MeasurementValue::Float(info.used_memory)),
            (self.free_swap, self.free_swap_name.clone(), MeasurementValue::Float(info.free_swap)),
            (self.used_swap, self.used_swap_name.clone(), MeasurementValue::Float(info.used_swap)),
        ];
        assert(items_view(items@) =~= memory_items(*self, *info));
        let name = crate::sysstat::config::owned("memory");
        Measurement::new(name, MeasurementValue::Dict(insert_all(items)))
    }
}

impl StateFromConfig for MemoryState {
    /// The state of the memory statistics loop, if the configuration has a
    /// memory section.
    fn new_from_config(config: &SysStatConfig, addrs: Vec<String>) -> (r: Option<MemoryState>)
        ensures
            r is Some <==> config.memory is Some,
            r matches Some(s) ==> s.built_from(config.memory->0, addrs@),
    {
        match &config.memory {
            Some(c) => Some(MemoryState {
                interval: c.interval_ms(),
                send_to: addrs,
                total_memory: c.total_memory,
                total_memory_name: c.total_memory_name.clone(),
                free_memory: c.free_memory,
                free_memory_name: c.free_memory_name.clone(),
                available_memory: c.available_memory,
                available_memory_name: c.available_memory_name.clone(),
                used_memory: c.used_memory,
                used_memory_name: c.used_memory_name.clone(),
                free_swap: c.free_swap,
                free_swap_name: c.free_swap_name.clone(),
                used_swap: c.used_swap,
                used_swap_name: c.used_swap_name.clone(),
            }),
            None => None,
        }
    }
}

impl State for MemoryState {
    fn interval(&self) -> (i: u64)
        ensures
            i == self.interval,
    {
        self.interval
    }
}

/// The memory map stores each enabled figure under its own configured name
/// with its own value (a later enabled figure with the same name replaces
/// it), and stores nothing else.
pub proof fn lemma_memory_figures(s: MemoryState, info: MemoryInfo)
    ensures
        (s.total_memory && !(s.free_memory && s.free_memory_name@ == s.total_memory_name@) && !(s.available_memory && s.available_memory_name@ == s.total_memory_name@) && !(s.used_memory && s.used_memory_name@ == s.total_memory_name@) && !(s.free_swap && s.free_swap_name@ == s.total_memory_name@) && !(s.used_swap && s.used_swap_name@ == s.total_memory_name@)) ==> lookup_after_inserts(memory_items(s, info), s.total_memory_name@) == Some(MeasurementValue::Float(info.total_memory)),
        (s.free_memory && !(s.available_memory && s.available_memory_name@ == s.free_memory_name@) && !(s.used_memory && s.used_memory_name@ == s.free_memory_name@) && !(s.free_swap && s.free_swap_name@ == s.free_memory_name@) && !(s.used_swap && s.used_swap_name@ == s.free_memory_name@)) ==> lookup_after_inserts(memory_items(s, info), s.free_memory_name@) == Some(MeasurementValue::Float(info.free_memory)),
        (s.available_memory && !(s.used_memory && s.used_memory_name@ == s.available_memory_name@) && !(s.free_swap && s.free_swap_name@ == s.available_memory_name@) && !(s.used_swap && s.used_swap_name@ == s.available_memory_name@)) ==> lookup_after_inserts(memory_items(s, info), s.available_memory_name@) == Some(MeasurementValue::Float(info.available_memory)),
        (s.used_memory && !(s.free_swap && s.free_swap_name@ == s.used_memory_name@) && !(s.used_swap && s.used_swap_name@ == s.used_memory_name@)) ==> lookup_after_inserts(memory_items(s, info), s.used_memory_name@) == Some(MeasurementValue::Float(info.used_memory)),
        (s.free_swap && !(s.used_swap && s.used_swap_name@ == s.free_swap_name@)) ==> lookup_after_inserts(memory_items(s, info), s.free_swap_name@) == Some(MeasurementValue::Float(info.free_swap)),
        (s.used_swap) ==> lookup_after_inserts(memory_items(s, info), s.used_swap_name@) == Some(MeasurementValue::Float(info.used_swap)),
        forall|k: Seq<char>|
            (#[trigger] lookup_after_inserts(memory_items(s, info), k)) is Some ==> ((s.total_memory && k == s.total_memory_name@ && lookup_after_inserts(memory_items(s, info), k) == Some(MeasurementValue::Float(info.total_memory)))
                || (s.free_memory && k == s.free_memory_name@ && lookup_after_inserts(memory_items(s, info), k) == Some(MeasurementValue::Float(info.free_memory)))
                || (s.available_memory && k == s.available_memory_name@ && lookup_after_inserts(memory_items(s, info), k) == Some(MeasurementValue::Float(info.available_memory)))
                || (s.used_memory && k == s.used_memory_name@ && lookup_after_inserts(memory_items(s, info), k) == Some(MeasurementValue::Float(info.used_memory)))
                || (s.free_swap && k == s.free_swap_name@ && lookup_after_inserts(memory_items(s, info), k) == Some(MeasurementValue::Float(info.free_swap)))
                || (s.used_swap && k == s.used_swap_name@ && lookup_after_inserts(memory_items(s, info), k) == Some(MeasurementValue::Float(info.used_swap)))),
{
    let items = memory_items(s, info);
    if s.total_memory && !(s.free_memory && s.free_memory_name@ == s.total_memory_name@) && !(s.available_memory && s.available_memory_name@ == s.total_memory_name@) && !(s.used_memory && s.used_memory_name@ == s.total_memory_name@) && !(s.free_swap && s.free_swap_name@ == s.total_memory_name@) && !(s.used_swap && s.used_swap_name@ == s.total_memory_name@) {
        lemma_lookup_after_inserts_last_wins(items, 0);
    }
    if s.free_memory && !(s.available_memory && s.available_memory_name@ == s.free_memory_name@) && !(s.used_memory && s.used_memory_name@ == s.free_memory_name@) && !(s.free_swap && s.free_swap_name@ == s.free_memory_name@) && !(s.used_swap && s.used_swap_name@ == s.free_memory_name@) {
        lemma_lookup_after_inserts_last_wins(items, 1);
    }
    if s.available_memory && !(s.used_memory && s.used_memory_name@ == s.available_memory_name@) && !(s.free_swap && s.free_swap_name@ == s.available_memory_name@) && !(s.used_swap && s.used_swap_name@ == s.available_memory_name@) {
        lemma_lookup_after_inserts_last_wins(items, 2);
    }
    if s.used_memory && !(s.free_swap && s.free_swap_name@ == s.used_memory_name@) && !(s.used_swap && s.used_swap_name@ == s.used_memory_name@) {
        lemma_lookup_after_inserts_last_wins(items, 3);
    }
    if s.free_swap && !(s.used_swap && s.used_swap_name@ == s.free_swap_name@) {
        lemma_lookup_after_inserts_last_wins(items, 4);
    }
    if s.used_swap {
        lemma_lookup_after_inserts_last_wins(items, 5);
    }
    assert forall|k: Seq<char>|
        (#[trigger] lookup_after_inserts(memory_items(s, info), k)) is Some implies ((s.total_memory && k == s.total_memory_name@ && lookup_after_inserts(memory_items(s, info), k) == Some(MeasurementValue::Float(info.total_memory)))
                || (s.free_memory && k == s.free_memory_name@ && lookup_after_inserts(memory_items(s, info), k) == Some(MeasurementValue::Float(info.free_memory)))
                || (s.available_memory && k == s.available_memory_name@ && lookup_after_inserts(memory_items(s, info), k) == Some(MeasurementValue::Float(info.available_memory)))
                || (s.used_memory && k == s.used_memory_name@ && lookup_after_inserts(memory_items(s, info), k) == Some(MeasurementValue::Float(info.used_memory)))
                || (s.free_swap && k == s.free_swap_name@ && lookup_after_inserts(memory_items(s, info), k) == Some(MeasurementValue::Float(info.free_swap)))
                || (s.used_swap && k == s.used_swap_name@ && lookup_after_inserts(memory_items(s, info), k) == Some(MeasurementValue::Float(info.used_swap)))) by {
        lemma_lookup_after_inserts_from_item(items, k);
        if let Some(v) = lookup_after_inserts(items, k) {
            let j = choose|j: int| 0 <= j < items.len() && (#[trigger] items[j]).0 && items[j].1 == k && items[j].2 == v;
            if j == 0 {
            } else if j == 1 {
            } else if j == 2 {
            } else if j == 3 {
            } else if j == 4 {
            } else if j == 5 {
            }
        }
    }
}

} // verus!
