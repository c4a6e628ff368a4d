//! The measurement filter plugin: it looks up a value inside each incoming
//! measurement and forwards the measurement according to a filter.
use vstd::prelude::*;

use crate::extractor::extract_measurement;
use crate::extractor::Extractable;
use crate::extractor::Extractor;
use crate::filter::filter_holds;
use crate::filter::Filter;
use crate::filter::Filterable;
use crate::measurement::Measurement;

verus! {

/// The configuration of the measurement filter plugin.
pub struct MeasurementFilterConfig {
    /// The name of the plugin to send the measurements to if the filter did
    /// not match its value
    pub target: String,
    /// The name of the plugin to send measurements to if the filter matched
    /// its value
    pub filtered_target: Option<String>,
    /// A path to find the value inside a measurement
    pub extractor: Extractor,
    /// The filter to filter the measurements with
    pub filter: Filter,
}

/// Where a measurement goes.
#[derive(Debug, PartialEq, Eq, Clone, Copy)]
pub enum Route {
    /// To the plugin named `target`.
    Target,
    /// To the plugin named `filtered_target`.
    FilteredTarget,
    /// Nowhere.
    Drop,
}

pub struct MeasurementFilterPlugin {
    pub target: String,
    pub filtered_target: Option<String>,
    pub extractor: Extractor,
    pub filter: Filter,
}

/// The route of `m`: a measurement in which the extractor finds no value is
/// dropped; one whose value matches the filter goes to the filtered target
/// (dropped when there is none); every other one goes to the target.
pub open spec fn route_of(
    m: Measurement,
    extractor: Extractor,
    filter: Filter,
    has_filtered_target: bool,
) -> Route {
    match extract_measurement(m, extractor.0@) {
        None => Route::Drop,
        Some(v) => if filter_holds(v, filter) {
            if has_filtered_target {
                Route::FilteredTarget
            } else {
                Route::Drop
            }
        } else {
            Route::Target
        },
    }
}

impl MeasurementFilterPlugin {
    pub fn new(
        target: String,
        filtered_target: Option<String>,
        extractor: Extractor,
        filter: Filter,
    ) -> (p: Self)
        ensures
            p.target == target,
            p.filtered_target == filtered_target,
            p.extractor == extractor,
            p.filter == filter,
    {
        MeasurementFilterPlugin { target, filtered_target, extractor, filter }
    }

    /// Decides where an incoming measurement goes.
    pub fn route(&self, message: &Measurement) -> (r: Route)
        ensures
            r == route_of(*message, self.extractor, self.filter, self.filtered_target is Some),
    {
        match message.extract(self.extractor.0.as_slice()) {
            Some(value) => {
                if value.apply_filter(&self.filter) {
                    if self.filtered_target.is_some() {
                        Route::FilteredTarget
                    } else {
                        Route::Drop
                    }
                } else {
                    Route::Target
                }
            },
            None => Route::Drop,
        }
    }

    /// The name of the plugin a measurement is sent to, if any.
    pub fn destination(&self, message: &Measurement) -> (d: Option<&String>)
        ensures
            match route_of(*message, self.extractor, self.filter, self.filtered_target is Some) {
                Route::Target => d == Some(&self.target),
                Route::FilteredTarget => d == Some(&self.filtered_target->0),
                Route::Drop => d is None,
            },
    {
        match self.route(message) {
            Route::Target => Some(&self.target),
            Route::FilteredTarget => match &self.filtered_target {
                Some(t) => Some(t),
                None => None,
            },
            Route::Drop => None,
        }
    }
}

pub struct MeasurementFilterPluginBuilder;

impl MeasurementFilterPluginBuilder {
    pub fn kind_name() -> (s: &'static str)
        ensures
            s@ == "measurement_filter"@,
    {
        "measurement_filter"
    }

    /// Builds the plugin that a configuration describes.
    pub fn instantiate(config: MeasurementFilterConfig) -> (p: MeasurementFilterPlugin)
        ensures
            p.target == config.target,
            p.filtered_target == config.filtered_target,
            p.extractor == config.extractor,
            p.filter == config.filter,
    {
        MeasurementFilterPlugin::new(
            config.target,
            config.filtered_target,
            config.extractor,
            config.filter,
        )
    }
}

/// A measurement goes to the filtered target only if its value matches the
/// filter, and to the target only if its value does not match.
pub proof fn lemma_route_separates(m: Measurement, extractor: Extractor, filter: Filter, has_filtered: bool)
    ensures
        route_of(m, extractor, filter, has_filtered) == Route::FilteredTarget ==> (extract_measurement(
            m,
            extractor.0@,
        ) matches Some(v) && filter_holds(v, filter)),
        route_of(m, extractor, filter, has_filtered) == Route::Target ==> (extract_measurement(
            m,
            extractor.0@,
        ) matches Some(v) && !filter_holds(v, filter)),
        extract_measurement(m, extractor.0@) is None ==> route_of(m, extractor, filter, has_filtered)
            == Route::Drop,
{
}

} // verus!
