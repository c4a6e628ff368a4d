//! The configuration of the system statistics plugin.
use vstd::prelude::*;

verus! {

pub fn owned(s: &str) -> (r: String)
    ensures
        r@ == s@,
{
    s.to_string()
}

/// Where to send the measurements of one kind, and how often to take them.
/// The interval is never zero.
pub struct BaseConfig {
    send_to: Vec<String>,
    interval_ms: u64,
}

impl BaseConfig {
    #[verifier::type_invariant]
    spec fn interval_not_zero(self) -> bool {
        self.interval_ms > 0
    }

    pub closed spec fn spec_send_to(self) -> Seq<String> {
        self.send_to@
    }

    pub closed spec fn spec_interval_ms(self) -> u64 {
        self.interval_ms
    }

    /// A base configuration; `None` for a zero interval.
    pub fn new(send_to: Vec<String>, interval_ms: u64) -> (r: Option<BaseConfig>)
        ensures
            interval_ms > 0 <==> r is Some,
            r matches Some(b) ==> b.spec_send_to() == send_to@ && b.spec_interval_ms() == interval_ms,
    {
        if interval_ms == 0 {
            None
        } else {
            Some(BaseConfig { send_to, interval_ms })
        }
    }

    pub fn send_to(&self) -> (r: &Vec<String>)
        ensures
            r@ == self.spec_send_to(),
    {
        &self.send_to
    }

    pub fn interval_ms(&self) -> (r: u64)
        ensures
            r == self.spec_interval_ms(),
            r > 0,
    {
        proof {
            use_type_invariant(self);
        }
        self.interval_ms
    }
}

/// A configuration section that holds a base configuration.
pub trait HasBaseConfig {
    spec fn base(&self) -> BaseConfig;

    fn send_to(&self) -> (r: &Vec<String>)
        ensures
            r@ == self.base().spec_send_to(),
    ;

    fn interval_ms(&self) -> (r: u64)
        ensures
            r == self.base().spec_interval_ms(),
            r > 0,
    ;
}

pub struct MemoryConfig {
    pub base: BaseConfig,
    /// Whether to report total_memory measurements
    pub total_memory: bool,
    /// The name under which the total_memory_name measurement is reported (default: "total_memory_name")
    pub total_memory_name: String,
    /// Whether to report free_memory measurements
    pub free_memory: bool,
    /// The name under which the free_memory_name measurement is reported (default: "free_memory_name")
    pub free_memory_name: String,
    /// Whether to report available_memory measurements
    pub available_memory: bool,
    /// The name under which the available_memory_name measurement is reported (default: "available_memory_name")
    pub available_memory_name: String,
    /// Whether to report used_memory measurements
    pub used_memory: bool,
    /// The name under which the used_memory_name measurement is reported (default: "used_memory_name")
    pub used_memory_name: String,
    /// Whether to report free_swap measurements
    pub free_swap: bool,
    /// The name under which the free_swap_name measurement is reported (default: "free_swap_name")
    pub free_swap_name: String,
    /// Whether to report used_swap measurements
    pub used_swap: bool,
    /// The name under which the used_swap_name measurement is reported (default: "used_swap_name")
    pub used_swap_name: String,
}

pub struct NetworkConfig {
    pub base: BaseConfig,
    /// Configure this to report stats for all network interfaces
    pub all_networks: AllNetworkStatConfig,
    /// Configure this to report stats for network interfaces by name
    pub by_name: Vec<(String, NetworkStatConfig)>,
}

pub struct AllNetworkStatConfig {
    pub enable: bool,
    pub config: NetworkStatConfig,
}

pub struct NetworkStatConfig {
    /// Enable to report the "received" measurement
    pub received: bool,
    /// Name to use to report the "received" measurement (default: "received")
    pub received_name: String,
    /// Enable to report the "total_received" measurement
    pub total_received: bool,
    /// Name to use to report the "total_received" measurement (default: "total_received")
    pub total_received_name: String,
    /// Enable to report the "transmitted" measurement
    pub transmitted: bool,
    /// Name to use to report the "transmitted" measurement (default: "transmitted")
    pub transmitted_name: String,
    /// Enable to report the "total_transmitted" measurement
    pub total_transmitted: bool,
    /// Name to use to report the "total_transmitted" measurement (default: "total_transmitted")
    pub total_transmitted_name: String,
    /// Enable to report the "packets_received" measurement
    pub packets_received: bool,
    /// Name to use to report the "packets_received" measurement (default: "packets_received")
    pub packets_received_name: String,
    /// Enable to report the "total_packets_received" measurement
    pub total_packets_received: bool,
    /// Name to use to report the "total_packets_received" measurement (default: "total_packets_received")
    pub total_packets_received_name: String,
    /// Enable to report the "packets_transmitted" measurement
    pub packets_transmitted: bool,
    /// Name to use to report the "packets_transmitted" measurement (default: "packets_transmitted")
    pub packets_transmitted_name: String,
    /// Enable to report the "total_packets_transmitted" measurement
    pub total_packets_transmitted: bool,
    /// Name to use to report the "total_packets_transmitted" measurement (default: "total_packets_transmitted")
    pub total_packets_transmitted_name: String,
    /// Enable to report the "errors_on_received" measurement
    pub errors_on_received: bool,
    /// Name to use to report the "errors_on_received" measurement (default: "errors_on_received")
    pub errors_on_received_name: String,
    /// Enable to report the "total_errors_on_received" measurement
    pub total_errors_on_received: bool,
    /// Name to use to report the "total_errors_on_received" measurement (default: "total_errors_on_received")
    pub total_errors_on_received_name: String,
}

pub struct CpuConfig {
    pub base: BaseConfig,
    pub report_global_processor_info: ProcessorInfoConfig,
    /// Report the global processor info measurement with the following name
    /// (default: "global_processor_info")
    pub global_processor_info_name: String,
    pub report_processor_info: ProcessorInfoConfig,
    /// Report the processor info measurement with the following name
    /// (default: "processor_info")
    pub processor_info_name: String,
    pub report_physical_core_count: PhysicalCoreCountConfig,
    /// Report the physical core count measurement with the following name
    /// (default: "physical_core_count")
    pub physical_core_count_name: String,
}

pub struct ProcessorInfoConfig {
    /// Enable reporting this stat
    pub enable: bool,
    /// Report the processor frequency
    pub frequency: bool,
    /// Report the processor frequency measurement with this name (default: "frequency")
    pub frequency_name: String,
    /// Report the processor cpu usage
    pub cpu_usage: bool,
    /// Report the processor cpu usage measurement with this name (default: "cpu_usage")
    pub cpu_usage_name: String,
    /// Report the processor name
    pub name: bool,
    /// Report the processor name measurement with this name (default: "name")
    pub name_name: String,
    /// Report the processor vendor id
    pub vendor_id: bool,
    /// Report the processor vendor id measurement with this name (default: "vendor_id")
    pub vendor_id_name: String,
    /// Report the processor brand
    pub brand: bool,
    /// Report the processor brand measurement with this name (default: "brand")
    pub brand_name: String,
}

#[derive(Clone, Copy, PartialEq, Eq, Structural)]
pub struct PhysicalCoreCountConfig {
    pub enable: bool,
}

pub struct DiskUsageConfig {
    pub base: BaseConfig,
}

pub struct LoadConfig {
    pub base: BaseConfig,
}

pub struct ProcessConfig {
    pub base: BaseConfig,
    pub all_processes: AllProcessConfig,
    pub by_name: Vec<(String, ProcessStatConfig)>,
}

pub struct AllProcessConfig {
    /// Report stats for all processes
    /// This automatically disables the "by_name" process reporting
    pub enable: bool,
    pub config: ProcessStatConfig,
}

#[derive(Debug, Clone, Copy, PartialEq, Eq, Structural)]
pub struct ProcessStatConfig {
    pub cmd: bool,
    pub cwd: bool,
    pub cpu_usage: bool,
    pub disk_usage: bool,
    pub exe: bool,
    pub memory: bool,
    pub name: bool,
    pub parent: bool,
    pub pid: bool,
    pub root: bool,
    pub run_time: bool,
    pub start_time: bool,
    pub vmemory: bool,
}

/// The configuration of the system statistics plugin: one optional section
/// per kind of statistics.
pub struct SysStatConfig {
    pub memory: Option<MemoryConfig>,
    pub network: Option<NetworkConfig>,
    pub cpu: Option<CpuConfig>,
    pub disk_usage: Option<DiskUsageConfig>,
    pub load: Option<LoadConfig>,
    pub process: Option<ProcessConfig>,
}

impl HasBaseConfig for MemoryConfig {
    open spec fn base(&self) -> BaseConfig {
        self.base
    }

    fn send_to(&self) -> (r: &Vec<String>) {
        self.base.send_to()
    }

    fn interval_ms(&self) -> (r: u64) {
        self.base.interval_ms()
    }
}

impl HasBaseConfig for NetworkConfig {
    open spec fn base(&self) -> BaseConfig {
        self.base
    }

    fn send_to(&self) -> (r: &Vec<String>) {
        self.base.send_to()
    }

    fn interval_ms(&self) -> (r: u64) {
        self.base.interval_ms()
    }
}

impl HasBaseConfig for CpuConfig {
    open spec fn base(&self) -> BaseConfig {
        self.base
    }

    fn send_to(&self) -> (r: &Vec<String>) {
        self.base.send_to()
    }

    fn interval_ms(&self) -> (r: u64) {
        self.base.interval_ms()
    }
}

impl HasBaseConfig for DiskUsageConfig {
    open spec fn base(&self) -> BaseConfig {
        self.base
    }

    fn send_to(&self) -> (r: &Vec<String>) {
        self.base.send_to()
    }

    fn interval_ms(&self) -> (r: u64) {
        self.base.interval_ms()
    }
}

impl HasBaseConfig for LoadConfig {
    open spec fn base(&self) -> BaseConfig {
        self.base
    }

    fn send_to(&self) -> (r: &Vec<String>) {
        self.base.send_to()
    }

    fn interval_ms(&self) -> (r: u64) {
        self.base.interval_ms()
    }
}

impl HasBaseConfig for ProcessConfig {
    open spec fn base(&self) -> BaseConfig {
        self.base
    }

    fn send_to(&self) -> (r: &Vec<String>) {
        self.base.send_to()
    }

    fn interval_ms(&self) -> (r: u64) {
        self.base.interval_ms()
    }
}

pub fn total_memory_name_default() -> (s: String)
    ensures
        s@ == "total_memory_name"@,
{
    owned("total_memory_name")
}

pub fn free_memory_name_default() -> (s: String)
    ensures
        s@ == "free_memory_name"@,
{
    owned("free_memory_name")
}

pub fn available_memory_name_default() -> (s: String)
    ensures
        s@ == "available_memory_name"@,
{
    owned("available_memory_name")
}

pub fn used_memory_name_default() -> (s: String)
    ensures
        s@ == "used_memory_name"@,
{
    owned("used_memory_name")
}

pub fn free_swap_name_default() -> (s: String)
    ensures
        s@ == "free_swap_name"@,
{
    owned("free_swap_name")
}

pub fn used_swap_name_default() -> (s: String)
    ensures
        s@ == "used_swap_name"@,
{
    owned("used_swap_name")
}

pub fn received_name_default() -> (s: String)
    ensures
        s@ == "received"@,
{
    owned("received")
}

pub fn total_received_name_default() -> (s: String)
    ensures
        s@ == "total_received"@,
{
    owned("total_received")
}

pub fn transmitted_name_default() -> (s: String)
    ensures
        s@ == "transmitted"@,
{
    owned("transmitted")
}

pub fn total_transmitted_name_default() -> (s: String)
    ensures
        s@ == "total_transmitted"@,
{
    owned("total_transmitted")
}

pub fn packets_received_name_default() -> (s: String)
    ensures
        s@ == "packets_received"@,
{
    owned("packets_received")
}

pub fn total_packets_received_name_default() -> (s: String)
    ensures
        s@ == "total_packets_received"@,
{
    owned("total_packets_received")
}

pub fn packets_transmitted_name_default() -> (s: String)
    ensures
        s@ == "packets_transmitted"@,
{
    owned("packets_transmitted")
}

pub fn total_packets_transmitted_name_default() -> (s: String)
    ensures
        s@ == "total_packets_transmitted"@,
{
    owned("total_packets_transmitted")
}

pub fn errors_on_received_name_default() -> (s: String)
    ensures
        s@ == "errors_on_received"@,
{
    owned("errors_on_received")
}

pub fn total_errors_on_received_name_default() -> (s: String)
    ensures
        s@ == "total_errors_on_received"@,
{
    owned("total_errors_on_received")
}

pub fn global_processor_info_name_default() -> (s: String)
    ensures
        s@ == "global_processor_info"@,
{
    owned("global_processor_info")
}

pub fn processor_info_name_default() -> (s: String)
    ensures
        s@ == "processor_info"@,
{
    owned("processor_info")
}

pub fn physical_core_count_name_default() -> (s: String)
    ensures
        s@ == "physical_core_count"@,
{
    owned("physical_core_count")
}

pub fn frequency_default_name() -> (s: String)
    ensures
        s@ == "frequency"@,
{
    owned("frequency")
}

pub fn cpu_usage_default_name() -> (s: String)
    ensures
        s@ == "cpu_usage"@,
{
    owned("cpu_usage")
}

pub fn name_default_name() -> (s: String)
    ensures
        s@ == "name"@,
{
    owned("name")
}

pub fn vendor_id_default_name() -> (s: String)
    ensures
        s@ == "vendor_id"@,
{
    owned("vendor_id")
}

pub fn brand_default_name() -> (s: String)
    ensures
        s@ == "brand"@,
{
    owned("brand")
}

} // verus!
