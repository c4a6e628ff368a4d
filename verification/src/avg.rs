//! The averaging plugin: it collects the numbers it receives and, once per
//! time window, reports their average.
use vstd::prelude::*;

use crate::measurement::kind_name;
use crate::measurement::measurement_to_str;
use crate::measurement::Measurement;
use crate::measurement::MeasurementValue;

verus! {

/// The configuration of the averaging plugin.
pub struct AvgConfig {
    /// The duration of the time window to calculate the average for, in
    /// milliseconds
    pub timeframe_ms: u64,
    /// The name of the plugin to send the result to
    pub target: String,
    /// Whether to report a 0 (zero) if there are zero measurements in the
    /// timeframe
    pub report_on_zero_elements: bool,
}

/// The averaging plugin: the numbers (IEEE-754 binary64 bit patterns)
/// received in the current time window, in the order they came.
/// The numbers among a sequence of measurement values, in the order they
/// come; values of other kinds are left out.
pub open spec fn numbers_of(vs: Seq<MeasurementValue>) -> Seq<u64>
    decreases vs.len(),
{
    if vs.len() == 0 {
        Seq::empty()
    } else {
        numbers_of(vs.drop_last()) + match vs.last() {
            MeasurementValue::Float(f) => seq![f],
            _ => Seq::empty(),
        }
    }
}

/// The numbers of the window after one more value arrived.
pub open spec fn after_value(values: Seq<u64>, v: MeasurementValue) -> Seq<u64> {
    match v {
        MeasurementValue::Float(f) => values.push(f),
        _ => values,
    }
}

/// The numbers of the window after values arrived one after the other.
pub open spec fn after_values(values: Seq<u64>, vs: Seq<MeasurementValue>) -> Seq<u64>
    decreases vs.len(),
{
    if vs.len() == 0 {
        values
    } else {
        after_value(after_values(values, vs.drop_last()), vs.last())
    }
}

pub struct AvgPlugin {
    pub addr: String,
    pub config: AvgConfig,
    pub values: Vec<u64>,
}

impl AvgPlugin {
    pub fn new(addr: String, config: AvgConfig) -> (p: Self)
        ensures
            p.addr == addr,
            p.config == config,
            p.values@ == Seq::<u64>::empty(),
    {
        AvgPlugin { addr, config, values: Vec::new() }
    }

    /// Takes in a measurement: a number is kept for the current window; any
    /// other value is refused with the name of its kind, and nothing is kept.
    pub fn handle_message(&mut self, message: &Measurement) -> (r: Result<(), &'static str>)
        ensures
            final(self).addr == old(self).addr,
            final(self).config == old(self).config,
            final(self).values@ == after_value(old(self).values@, message.value),
            match message.value {
                MeasurementValue::Float(f) => r is Ok && final(self).values@ == old(self).values@.push(f),
                _ => r matches Err(k) && k@ == kind_name(message.value) && final(self).values@ == old(
                    self,
                ).values@,
            },
    {
        match &message.value {
            MeasurementValue::Float(f) => {
                self.values.push(*f);
                Ok(())
            },
            other => Err(measurement_to_str(other)),
        }
    }

    /// Ends the current time window: the numbers it collected, to be
    /// averaged and reported, unless there are none and reporting an empty
    /// window is not configured. The next window starts empty.
    pub fn end_window(&mut self) -> (r: Option<Vec<u64>>)
        ensures
            final(self).addr == old(self).addr,
            final(self).config == old(self).config,
            final(self).values@ == Seq::<u64>::empty(),
            (old(self).values@.len() > 0 || old(self).config.report_on_zero_elements) ==> (r matches Some(v)
                && v@ == old(self).values@),
            (old(self).values@.len() == 0 && !old(self).config.report_on_zero_elements) ==> r is None,
    {
        if self.values.len() > 0 || self.config.report_on_zero_elements {
            let mut taken: Vec<u64> = Vec::new();
            std::mem::swap(&mut taken, &mut self.values);
            Some(taken)
        } else {
            None
        }
    }
}

/// The measurement that reports the average of a window: named "avg", with
/// the average as its number.
pub fn avg_measurement(avg: u64) -> (m: Measurement)
    ensures
        m.name@ == "avg"@,
        m.value == MeasurementValue::Float(avg),
{
    Measurement::new("avg".to_string(), MeasurementValue::Float(avg))
}

/// A window that starts empty holds, whatever values arrive, exactly their
/// numbers in the order they came: the average covers all numbers received in
/// the window and nothing else.
pub proof fn lemma_window_holds_numbers(vs: Seq<MeasurementValue>)
    ensures
        after_values(Seq::empty(), vs) == numbers_of(vs),
    decreases vs.len(),
{
    if vs.len() > 0 {
        lemma_window_holds_numbers(vs.drop_last());
    }
}

pub struct AvgPluginBuilder;

impl AvgPluginBuilder {
    pub fn kind_name() -> (s: &'static str)
        ensures
            s@ == "avg"@,
    {
        "avg"
    }

    /// Builds the plugin that a configuration describes.
    pub fn instantiate(config: AvgConfig) -> (p: AvgPlugin)
        ensures
            p.addr == config.target,
            p.config == config,
            p.values@ == Seq::<u64>::empty(),
    {
        let addr = config.target.clone();
        AvgPlugin::new(addr, config)
    }
}

} // verus!
