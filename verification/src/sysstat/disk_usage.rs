//! Disk usage statistics.
use vstd::prelude::*;
use vstd::utf8::decode_utf8;
use vstd::utf8::valid_utf8;

use crate::measurement::map_insert;
use crate::measurement::map_lookup;
use crate::measurement::Measurement;
use crate::measurement::MeasurementValue;
use crate::sysstat::config::owned;
use crate::sysstat::config::HasBaseConfig;
use crate::sysstat::config::SysStatConfig;
use crate::sysstat::State;
use crate::sysstat::StateFromConfig;
use crate::sysstat::config::DiskUsageConfig;
use crate::sysstat::Error;
use crate::text::utf8_decode;

verus! {

#[derive(Debug, Clone, Copy, PartialEq, Eq, Structural)]
pub enum DiskKind {
    HDD,
    SSD,
    Unknown,
}

/// What is known of a disk. `name` is `None` when the name the system gives
/// is not valid Unicode; the file system is given as raw bytes; sizes are
/// IEEE-754 binary64 bit patterns.
pub struct DiskInfo {
    pub name: Option<String>,
    pub file_system: Vec<u8>,
    pub kind: DiskKind,
    pub mount_point: String,
    pub total_space: u64,
    pub available_space: u64,
    pub removable: bool,
}

pub open spec fn disk_kind_name(k: DiskKind) -> Seq<char> {
    match k {
        DiskKind::HDD => "HDD"@,
        DiskKind::SSD => "SSD"@,
        DiskKind::Unknown => "Unknown"@,
    }
}

fn disk_kind_text(k: DiskKind) -> (s: String)
    ensures
        s@ == disk_kind_name(k),
{
    match k {
        DiskKind::HDD => owned("HDD"),
        DiskKind::SSD => owned("SSD"),
        DiskKind::Unknown => owned("Unknown"),
    }
}

/// `r` is the measurement of `disk`: a disk whose name is not Unicode gives
/// `CannotReadDiskName`; then one whose file system name is not UTF-8 gives
/// `Utf8Error`; any other gives a measurement named after the disk with the
/// entries `fs`, `type`, `mountpoint`, `total`, `avail` and `removable`, and
/// no others.
pub open spec fn disk_measurement_of(r: Result<Measurement, Error>, disk: DiskInfo) -> bool {
    &&& (disk.name is None ==> (r matches Err(Error::CannotReadDiskName)))
    &&& (disk.name is Some && !valid_utf8(disk.file_system@) ==> (r matches Err(Error::Utf8Error)))
    &&& (r is Ok <==> (disk.name is Some && valid_utf8(disk.file_system@)))
    &&& (r matches Ok(m) ==> {
        let d = m.value->Dict_0@;
        &&& m.name == disk.name->0
        &&& m.value is Dict
        &&& map_lookup(d, "fs"@) matches Some(MeasurementValue::Text(t)) && t@ == decode_utf8(
            disk.file_system@,
        )
        &&& map_lookup(d, "type"@) matches Some(MeasurementValue::Text(t)) && t@ == disk_kind_name(
            disk.kind,
        )
        &&& map_lookup(d, "mountpoint"@) == Some(MeasurementValue::Text(disk.mount_point))
        &&& map_lookup(d, "total"@) == Some(MeasurementValue::Float(disk.total_space))
        &&& map_lookup(d, "avail"@) == Some(MeasurementValue::Float(disk.available_space))
        &&& map_lookup(d, "removable"@) == Some(MeasurementValue::Bool(disk.removable))
        &&& forall|k: Seq<char>| !(k == "fs"@ || k == "type"@ || k == "mountpoint"@ || k == "total"@ || k == "avail"@ || k == "removable"@) ==> #[trigger] map_lookup(d, k) is None
    })
}

/// The measurement of a disk (see `disk_measurement_of`).
pub fn measure_to_message(disk: &DiskInfo) -> (r: Result<Measurement, Error>)
    ensures
        disk_measurement_of(r, *disk),
{
    let name = match &disk.name {
        Some(n) => n.clone(),
        None => {
            return Err(Error::CannotReadDiskName);
        },
    };
    let fs = match utf8_decode(disk.file_system.as_slice()) {
        Some(s) => s,
        None => {
            return Err(Error::Utf8Error);
        },
    };
    let ty = disk_kind_text(disk.kind);
    let mut entries: Vec<(String, MeasurementValue)> = Vec::new();
    map_insert(&mut entries, owned("fs"), MeasurementValue::Text(fs));
    map_insert(&mut entries, owned("type"), MeasurementValue::Text(ty));
    map_insert(&mut entries, owned("mountpoint"), MeasurementValue::Text(disk.mount_point.clone()));
    map_insert(&mut entries, owned("total"), MeasurementValue::Float(disk.total_space));
    map_insert(&mut entries, owned("avail"), MeasurementValue::Float(disk.available_space));
    map_insert(&mut entries, owned("removable"), MeasurementValue::Bool(disk.removable));
    proof {
        reveal_strlit("fs");
        reveal_strlit("type");
        reveal_strlit("mountpoint");
        reveal_strlit("total");
        reveal_strlit("avail");
        reveal_strlit("removable");
        assert("fs"@.len() == 2);
        assert("type"@.len() == 4);
        assert("mountpoint"@.len() == 10);
        assert("total"@.len() == 5);
        assert("avail"@.len() == 5);
        assert("removable"@.len() == 9);
        assert("total"@[0] != "avail"@[0]);
        assert forall|k: Seq<char>| !(k == "fs"@ || k == "type"@ || k == "mountpoint"@ || k == "total"@ || k == "avail"@ || k == "removable"@) implies #[trigger] map_lookup(entries@, k) is None by {}
    }
    Ok(Measurement::new(name, MeasurementValue::Dict(entries)))
}

/// What the disk usage loop keeps between two rounds.
pub struct DiskUsageState {
    pub interval: u64,
    pub send_to: Vec<String>,
}

impl DiskUsageState {
    /// This state is the one that configuration `c` and targets `addrs` give.
    pub open spec fn built_from(self, c: DiskUsageConfig, addrs: Seq<String>) -> bool {
        self.interval == c.base.spec_interval_ms() && self.send_to@ == addrs
    }

    /// The measurement of each disk, in the order given (see
    /// `disk_measurement_of`).
    pub fn measurements(&self, disks: &Vec<DiskInfo>) -> (ms: Vec<Result<Measurement, Error>>)
        ensures
            ms@.len() == disks@.len(),
            forall|i: int| 0 <= i < ms@.len() ==> disk_measurement_of(#[trigger] ms@[i], disks@[i]),
    {
        let mut ms: Vec<Result<Measurement, Error>> = Vec::new();
        for i in 0..disks.len()
            invariant
                ms@.len() == i,
                forall|j: int| 0 <= j < i ==> disk_measurement_of(#[trigger] ms@[j], disks@[j]),
        {
            ms.push(measure_to_message(&disks[i]));
        }
        ms
    }
}

impl StateFromConfig for DiskUsageState {
    /// The state of the disk usage loop, if the configuration has a disk
    /// usage section.
    fn new_from_config(config: &SysStatConfig, addrs: Vec<String>) -> (r: Option<DiskUsageState>)
        ensures
            r is Some <==> config.disk_usage is Some,
            r matches Some(s) ==> s.built_from(config.disk_usage->0, addrs@),
    {
        match &config.disk_usage {
            Some(c) => Some(DiskUsageState { interval: c.interval_ms(), send_to: addrs }),
            None => None,
        }
    }
}

impl State for DiskUsageState {
    fn interval(&self) -> (i: u64)
        ensures
            i == self.interval,
    {
        self.interval
    }
}

} // verus!
