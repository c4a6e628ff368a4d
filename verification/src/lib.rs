use vstd::prelude::*;

pub mod text;
pub mod measurement;
pub mod extractor;
pub mod filter;
pub mod measurement_filter;
pub mod mqtt;
pub mod collectd;
pub mod mqtt_sm;
pub mod sysstat;
pub mod notification;
pub mod avg;
pub mod inotify;
pub mod thin_edge_json;
pub mod c8y;
pub mod sm_apt;
pub mod mqtt_measurement_bridge;
pub mod log;
pub mod httpstop;

verus! {

} // verus!
