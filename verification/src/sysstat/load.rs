//! Load average statistics.
use vstd::prelude::*;

use crate::measurement::map_lookup;
use crate::measurement::map_insert;
use crate::measurement::Measurement;
use crate::measurement::MeasurementValue;
use crate::sysstat::config::owned;
use crate::sysstat::config::HasBaseConfig;
use crate::sysstat::config::SysStatConfig;
use crate::sysstat::State;
use crate::sysstat::StateFromConfig;
use crate::sysstat::config::LoadConfig;

verus! {

/// The load averages over one, five and fifteen minutes, as IEEE-754
/// binary64 bit patterns.
pub struct LoadInfo {
    pub one: u64,
    pub five: u64,
    pub fifteen: u64,
}

/// What the load statistics loop keeps between two rounds.
pub struct LoadState {
    pub interval: u64,
    pub send_to: Vec<String>,
}

impl LoadState {
    /// This state is the one that configuration `c` and targets `addrs` give.
    pub open spec fn built_from(self, c: LoadConfig, addrs: Seq<String>) -> bool {
        self.interval == c.base.spec_interval_ms() && self.send_to@ == addrs
    }

    /// The measurement of one round: `load`, a map with the entries `one`,
    /// `five` and `fifteen`.
    pub fn measurement(&self, info: &LoadInfo) -> (m: Measurement)
        ensures
            m.name@ == "load"@,
            m.value is Dict,
            map_lookup(m.value->Dict_0@, "one"@) == Some(MeasurementValue::Float(info.one)),
            map_lookup(m.value->Dict_0@, "five"@) == Some(MeasurementValue::Float(info.five)),
            map_lookup(m.value->Dict_0@, "fifteen"@) == Some(MeasurementValue::Float(info.fifteen)),
            forall|k: Seq<char>|
                k != "one"@ && k != "five"@ && k != "fifteen"@ ==> #[trigger] map_lookup(
                    m.value->Dict_0@,
                    k,
                ) is None,
    {
        let mut entries: Vec<(String, MeasurementValue)> = Vec::new();
        map_insert(&mut entries, owned("one"), MeasurementValue::Float(info.one));
        map_insert(&mut entries, owned("five"), MeasurementValue::Float(info.five));
        map_insert(&mut entries, owned("fifteen"), MeasurementValue::Float(info.fifteen));
        proof {
            reveal_strlit("one");
            reveal_strlit("five");
            reveal_strlit("fifteen");
            assert("one"@.len() == 3 && "five"@.len() == 4 && "fifteen"@.len() == 7);
            assert("one"@ != "fifteen"@);
            assert("five"@ != "fifteen"@);
            assert("one"@ != "five"@);
        }
        Measurement::new(owned("load"), MeasurementValue::Dict(entries))
    }
}

impl StateFromConfig for LoadState {
    /// The state of the load statistics loop, if the configuration has a
    /// load section.
    fn new_from_config(config: &SysStatConfig, addrs: Vec<String>) -> (r: Option<LoadState>)
        ensures
            r is Some <==> config.load is Some,
            r matches Some(s) ==> s.built_from(config.load->0, addrs@),
    {
        match &config.load {
            Some(c) => Some(LoadState { interval: c.interval_ms(), send_to: addrs }),
            None => None,
        }
    }
}

impl State for LoadState {
    fn interval(&self) -> (i: u64)
        ensures
            i == self.interval,
    {
        self.interval
    }
}

} // verus!
