//! Processor statistics.
use vstd::prelude::*;

use crate::measurement::distinct_keys;
use crate::measurement::insert_all;
use crate::measurement::items_view;
use crate::measurement::lemma_lookup_after_inserts_from_item;
use crate::measurement::lemma_lookup_after_inserts_last_wins;
use crate::measurement::lookup_after_inserts;
use crate::measurement::map_lookup;
use crate::measurement::Measurement;
use crate::measurement::MeasurementValue;
use crate::sysstat::config::HasBaseConfig;
use crate::sysstat::config::PhysicalCoreCountConfig;
use crate::sysstat::config::ProcessorInfoConfig;
use crate::sysstat::config::SysStatConfig;
use crate::sysstat::State;
use crate::sysstat::StateFromConfig;
use crate::sysstat::config::CpuConfig;

verus! {

/// What is known of one processor (or of all of them together). Numbers are
/// IEEE-754 binary64 bit patterns.
pub struct ProcessorInfo {
    pub frequency: u64,
    pub cpu_usage: u64,
    pub name: String,
    pub vendor_id: String,
    pub brand: String,
}

/// The items reported for a processor, in the order they are stored.
pub open spec fn processor_items(info: ProcessorInfo, cfg: ProcessorInfoConfig) -> Seq<
    (bool, Seq<char>, MeasurementValue),
> {
    seq![
        (cfg.frequency, cfg.frequency_name@, MeasurementValue::Float(info.frequency)),
        (cfg.cpu_usage, cfg.cpu_usage_name@, MeasurementValue::Float(info.cpu_usage)),
        (cfg.name, cfg.name_name@, MeasurementValue::Text(info.name)),
        (cfg.vendor_id, cfg.vendor_id_name@, MeasurementValue::Text(info.vendor_id)),
        (cfg.brand, cfg.brand_name@, MeasurementValue::Text(info.brand)),
    ]
}

/// `v` is the map of the enabled statistics of a processor, each under its
/// configured name.
pub open spec fn processor_value_ok(v: MeasurementValue, info: ProcessorInfo, cfg: ProcessorInfoConfig) -> bool {
    &&& v is Dict
    &&& distinct_keys(v->Dict_0@)
    &&& forall|k: Seq<char>|
        #[trigger] map_lookup(v->Dict_0@, k) == lookup_after_inserts(processor_items(info, cfg), k)
}

/// The map of the statistics of a processor that the configuration enables.
pub fn get_processor_info_measurements(info: &ProcessorInfo, cfg: &ProcessorInfoConfig) -> (v: MeasurementValue)
    ensures
        processor_value_ok(v, *info, *cfg),
{
    let items = vec![
        (cfg.frequency, cfg.frequency_name.clone(), MeasurementValue::Float(info.frequency)),
        (cfg.cpu_usage, cfg.cpu_usage_name.clone(), MeasurementValue::Float(info.cpu_usage)),
        (cfg.name, cfg.name_name.clone(), MeasurementValue::Text(info.name.clone())),
        (cfg.vendor_id, cfg.vendor_id_name.clone(), MeasurementValue::Text(info.vendor_id.clone())),
        (cfg.brand, cfg.brand_name.clone(), MeasurementValue::Text(info.brand.clone())),
    ];
    assert(items_view(items@) =~= processor_items(*info, *cfg));
    MeasurementValue::Dict(insert_all(items))
}

/// What the processor statistics loop keeps between two rounds.
pub struct CPUState {
    pub interval: u64,
    pub send_to: Vec<String>,
    pub report_global_processor_info: ProcessorInfoConfig,
    pub global_processor_info_name: String,
    pub report_processor_info: ProcessorInfoConfig,
    pub processor_info_name: String,
    pub report_physical_core_count: PhysicalCoreCountConfig,
    pub physical_core_count_name: String,
}

pub fn copy_processor_info_config(c: &ProcessorInfoConfig) -> (r: ProcessorInfoConfig)
    ensures
        r == *c,
{
    ProcessorInfoConfig {
        enable: c.enable,
        frequency: c.frequency,
        frequency_name: c.frequency_name.clone(),
        cpu_usage: c.cpu_usage,
        cpu_usage_name: c.cpu_usage_name.clone(),
        name: c.name,
        name_name: c.name_name.clone(),
        vendor_id: c.vendor_id,
        vendor_id_name: c.vendor_id_name.clone(),
        brand: c.brand,
        brand_name: c.brand_name.clone(),
    }
}

impl CPUState {
    /// This state is the one that configuration `c` and targets `addrs` give.
    pub open spec fn built_from(self, c: CpuConfig, addrs: Seq<String>) -> bool {
        &&& self.interval == c.base.spec_interval_ms()
        &&& self.send_to@ == addrs
        &&& self.report_global_processor_info == c.report_global_processor_info
        &&& self.global_processor_info_name == c.global_processor_info_name
        &&& self.report_processor_info == c.report_processor_info
        &&& self.processor_info_name == c.processor_info_name
        &&& self.report_physical_core_count == c.report_physical_core_count
        &&& self.physical_core_count_name == c.physical_core_count_name
    }

    /// How many measurements the overall processor statistics give: one if
    /// enabled.
    pub open spec fn global_count(self) -> int {
        if self.report_global_processor_info.enable {
            1
        } else {
            0
        }
    }

    /// How many measurements `n` processors give: one each if enabled.
    pub open spec fn processor_count(self, n: int) -> int {
        if self.report_processor_info.enable {
            n
        } else {
            0
        }
    }

    /// How many measurements the physical core count gives: one if enabled
    /// and known.
    pub open spec fn core_count_entries(self, core_count: Option<u64>) -> int {
        if self.report_physical_core_count.enable && core_count is Some {
            1
        } else {
            0
        }
    }

    /// The measurements of one round: the overall processor statistics (if
    /// enabled), then the statistics of each processor in turn (if enabled),
    /// then the physical core count (if enabled and known).
    pub fn measurements(
        &self,
        global: &ProcessorInfo,
        processors: &Vec<ProcessorInfo>,
        core_count: Option<u64>,
    ) -> (ms: Vec<Measurement>)
        ensures
            ms@.len() == self.global_count() + self.processor_count(processors@.len() as int)
                + self.core_count_entries(core_count),
            self.report_global_processor_info.enable ==> ms@[0].name == self.global_processor_info_name
                && processor_value_ok(ms@[0].value, *global, self.report_global_processor_info),
            forall|j: int|
                self.global_count() <= j < self.global_count() + self.processor_count(processors@.len() as int)
                    ==> (#[trigger] ms@[j]).name == self.processor_info_name && processor_value_ok(
                    ms@[j].value,
                    processors@[j - self.global_count()],
                    self.report_processor_info,
                ),
            (self.report_physical_core_count.enable && core_count is Some) ==> ms@[ms@.len() - 1].name
                == self.physical_core_count_name && ms@[ms@.len() - 1].value == MeasurementValue::Float(
                core_count->0,
            ),
    {
        let mut ms: Vec<Measurement> = Vec::new();
        if self.report_global_processor_info.enable {
            let v = get_processor_info_measurements(global, &self.report_global_processor_info);
            ms.push(Measurement::new(self.global_processor_info_name.clone(), v));
        }
        let ghost g = ms@.len() as int;
        let ghost first = ms@;
        if self.report_processor_info.enable {
            for i in 0..processors.len()
                invariant
                    ms@.len() == g + i,
                    g == self.global_count(),
                    forall|j: int| 0 <= j < g ==> ms@[j] == first[j],
                    g == 1 ==> ms@[0].name == self.global_processor_info_name && processor_value_ok(
                        ms@[0].value,
                        *global,
                        self.report_global_processor_info,
                    ),
                    forall|j: int|
                        g <= j < g + i ==> (#[trigger] ms@[j]).name == self.processor_info_name
                            && processor_value_ok(ms@[j].value, processors@[j - g], self.report_processor_info),
            {
                let v = get_processor_info_measurements(&processors[i], &self.report_processor_info);
                ms.push(Measurement::new(self.processor_info_name.clone(), v));
            }
        }
        let ghost second = ms@;
        if self.report_physical_core_count.enable {
            if let Some(count) = core_count {
                ms.push(
                    Measurement::new(self.physical_core_count_name.clone(), MeasurementValue::Float(count)),
                );
                assert(forall|j: int| 0 <= j < second.len() ==> ms@[j] == second[j]);
            }
        }
        ms
    }
}

impl StateFromConfig for CPUState {
    /// The state of the processor statistics loop, if the configuration has
    /// a processor section.
    fn new_from_config(config: &SysStatConfig, addrs: Vec<String>) -> (r: Option<CPUState>)
        ensures
            r is Some <==> config.cpu is Some,
            r matches Some(s) ==> s.built_from(config.cpu->0, addrs@),
    {
        match &config.cpu {
            Some(c) => Some(
                CPUState {
                    interval: c.interval_ms(),
                    send_to: addrs,
                    report_global_processor_info: copy_processor_info_config(&c.report_global_processor_info),
                    global_processor_info_name: c.global_processor_info_name.clone(),
                    report_processor_info: copy_processor_info_config(&c.report_processor_info),
                    processor_info_name: c.processor_info_name.clone(),
                    report_physical_core_count: c.report_physical_core_count,
                    physical_core_count_name: c.physical_core_count_name.clone(),
                },
            ),
            None => None,
        }
    }
}

impl State for CPUState {
    fn interval(&self) -> (i: u64)
        ensures
            i == self.interval,
    {
        self.interval
    }
}

/// The map of a processor stores each enabled statistic under its own
/// configured name with its own value (a later enabled statistic with the
/// same name replaces it), and stores nothing else.
pub proof fn lemma_processor_items(info: ProcessorInfo, cfg: ProcessorInfoConfig)
    ensures
        (cfg.frequency && !(cfg.cpu_usage && cfg.cpu_usage_name@ == cfg.frequency_name@) && !(cfg.name && cfg.name_name@ == cfg.frequency_name@) && !(cfg.vendor_id && cfg.vendor_id_name@ == cfg.frequency_name@) && !(cfg.brand && cfg.brand_name@ == cfg.frequency_name@)) ==> lookup_after_inserts(processor_items(info, cfg), cfg.frequency_name@) == Some(MeasurementValue::Float(info.frequency)),
        (cfg.cpu_usage && !(cfg.name && cfg.name_name@ == cfg.cpu_usage_name@) && !(cfg.vendor_id && cfg.vendor_id_name@ == cfg.cpu_usage_name@) && !(cfg.brand && cfg.brand_name@ == cfg.cpu_usage_name@)) ==> lookup_after_inserts(processor_items(info, cfg), cfg.cpu_usage_name@) == Some(MeasurementValue::Float(info.cpu_usage)),
        (cfg.name && !(cfg.vendor_id && cfg.vendor_id_name@ == cfg.name_name@) && !(cfg.brand && cfg.brand_name@ == cfg.name_name@)) ==> lookup_after_inserts(processor_items(info, cfg), cfg.name_name@) == Some(MeasurementValue::Text(info.name)),
        (cfg.vendor_id && !(cfg.brand && cfg.brand_name@ == cfg.vendor_id_name@)) ==> lookup_after_inserts(processor_items(info, cfg), cfg.vendor_id_name@) == Some(MeasurementValue::Text(info.vendor_id)),
        (cfg.brand) ==> lookup_after_inserts(processor_items(info, cfg), cfg.brand_name@) == Some(MeasurementValue::Text(info.brand)),
        forall|k: Seq<char>|
            (#[trigger] lookup_after_inserts(processor_items(info, cfg), k)) is Some ==> ((cfg.frequency && k == cfg.frequency_name@ && lookup_after_inserts(processor_items(info, cfg), k) == Some(MeasurementValue::Float(info.frequency)))
                || (cfg.cpu_usage && k == cfg.cpu_usage_name@ && lookup_after_inserts(processor_items(info, cfg), k) == Some(MeasurementValue::Float(info.cpu_usage)))
                || (cfg.name && k == cfg.name_name@ && lookup_after_inserts(processor_items(info, cfg), k) == Some(MeasurementValue::Text(info.name)))
                || (cfg.vendor_id && k == cfg.vendor_id_name@ && lookup_after_inserts(processor_items(info, cfg), k) == Some(MeasurementValue::Text(info.vendor_id)))
                || (cfg.brand && k == cfg.brand_name@ && lookup_after_inserts(processor_items(info, cfg), k) == Some(MeasurementValue::Text(info.brand)))),
{
    let items = processor_items(info, cfg);
    if cfg.frequency && !(cfg.cpu_usage && cfg.cpu_usage_name@ == cfg.frequency_name@) && !(cfg.name && cfg.name_name@ == cfg.frequency_name@) && !(cfg.vendor_id && cfg.vendor_id_name@ == cfg.frequency_name@) && !(cfg.brand && cfg.brand_name@ == cfg.frequency_name@) {
        lemma_lookup_after_inserts_last_wins(items, 0);
    }
    if cfg.cpu_usage && !(cfg.name && cfg.name_name@ == cfg.cpu_usage_name@) && !(cfg.vendor_id && cfg.vendor_id_name@ == cfg.cpu_usage_name@) && !(cfg.brand && cfg.brand_name@ == cfg.cpu_usage_name@) {
        lemma_lookup_after_inserts_last_wins(items, 1);
    }
    if cfg.name && !(cfg.vendor_id && cfg.vendor_id_name@ == cfg.name_name@) && !(cfg.brand && cfg.brand_name@ == cfg.name_name@) {
        lemma_lookup_after_inserts_last_wins(items, 2);
    }
    if cfg.vendor_id && !(cfg.brand && cfg.brand_name@ == cfg.vendor_id_name@) {
        lemma_lookup_after_inserts_last_wins(items, 3);
    }
    if cfg.brand {
        lemma_lookup_after_inserts_last_wins(items, 4);
    }
    assert forall|k: Seq<char>|
        (#[trigger] lookup_after_inserts(processor_items(info, cfg), k)) is Some implies ((cfg.frequency && k == cfg.frequency_name@ && lookup_after_inserts(processor_items(info, cfg), k) == Some(MeasurementValue::Float(info.frequency)))
                || (cfg.cpu_usage && k == cfg.cpu_usage_name@ && lookup_after_inserts(processor_items(info, cfg), k) == Some(MeasurementValue::Float(info.cpu_usage)))
                || (cfg.name && k == cfg.name_name@ && lookup_after_inserts(processor_items(info, cfg), k) == Some(MeasurementValue::Text(info.name)))
                || (cfg.vendor_id && k == cfg.vendor_id_name@ && lookup_after_inserts(processor_items(info, cfg), k) == Some(MeasurementValue::Text(info.vendor_id)))
                || (cfg.brand && k == cfg.brand_name@ && lookup_after_inserts(processor_items(info, cfg), k) == Some(MeasurementValue::Text(info.brand)))) by {
        lemma_lookup_after_inserts_from_item(items, k);
        if let Some(v) = lookup_after_inserts(items, k) {
            let j = choose|j: int| 0 <= j < items.len() && (#[trigger] items[j]).0 && items[j].1 == k && items[j].2 == v;
            if j == 0 {
            } else if j == 1 {
            } else if j == 2 {
            } else if j == 3 {
            } else if j == 4 {
            }
        }
    }
}

} // verus!
