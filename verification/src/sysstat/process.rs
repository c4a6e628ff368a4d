//! Process statistics.
use vstd::prelude::*;

use crate::measurement::distinct_keys;
use crate::measurement::insert_all;
use crate::measurement::items_view;
use crate::measurement::lemma_lookup_after_inserts_absent;
use crate::measurement::lemma_lookup_after_inserts_distinct;
use crate::measurement::lookup_after_inserts;
use crate::measurement::map_get;
use crate::measurement::map_insert;
use crate::measurement::map_lookup;
use crate::measurement::Measurement;
use crate::measurement::MeasurementValue;
use crate::sysstat::config::owned;
use crate::sysstat::config::AllProcessConfig;
use crate::sysstat::config::HasBaseConfig;
use crate::sysstat::config::ProcessStatConfig;
use crate::sysstat::config::SysStatConfig;
use crate::sysstat::State;
use crate::sysstat::StateFromConfig;
use crate::sysstat::config::ProcessConfig;

verus! {

/// The disk usage of a process, as IEEE-754 binary64 bit patterns.
pub struct DiskUsageInfo {
    pub total_written_bytes: u64,
    pub written_bytes: u64,
    pub total_read_bytes: u64,
    pub read_bytes: u64,
}

/// What is known of a process. Numbers are IEEE-754 binary64 bit patterns;
/// `parent` is the parent's process id, if there is one.
pub struct ProcessInfo {
    pub name: String,
    pub cwd: String,
    pub cpu_usage: u64,
    pub disk_usage: DiskUsageInfo,
    pub exe: String,
    pub memory: u64,
    pub pid: u64,
    pub root: String,
    pub run_time: u64,
    pub start_time: u64,
    pub vmemory: u64,
    pub parent: Option<u64>,
}

pub open spec fn disk_usage_value_ok(v: MeasurementValue, u: DiskUsageInfo) -> bool {
    &&& v is Dict
    &&& map_lookup(v->Dict_0@, "total_written_bytes"@) == Some(MeasurementValue::Float(u.total_written_bytes))
    &&& map_lookup(v->Dict_0@, "written_bytes"@) == Some(MeasurementValue::Float(u.written_bytes))
    &&& map_lookup(v->Dict_0@, "total_read_bytes"@) == Some(MeasurementValue::Float(u.total_read_bytes))
    &&& map_lookup(v->Dict_0@, "read_bytes"@) == Some(MeasurementValue::Float(u.read_bytes))
    &&& forall|k: Seq<char>| !(k == "total_written_bytes"@ || k == "written_bytes"@ || k == "total_read_bytes"@ || k == "read_bytes"@) ==> #[trigger] map_lookup(v->Dict_0@, k) is None
}

fn disk_usage_value(u: &DiskUsageInfo) -> (v: MeasurementValue)
    ensures
        disk_usage_value_ok(v, *u),
{
    let mut entries: Vec<(String, MeasurementValue)> = Vec::new();
    map_insert(&mut entries, owned("total_written_bytes"), MeasurementValue::Float(u.total_written_bytes));
    map_insert(&mut entries, owned("written_bytes"), MeasurementValue::Float(u.written_bytes));
    map_insert(&mut entries, owned("total_read_bytes"), MeasurementValue::Float(u.total_read_bytes));
    map_insert(&mut entries, owned("read_bytes"), MeasurementValue::Float(u.read_bytes));
    proof {
        reveal_strlit("total_written_bytes");
        reveal_strlit("written_bytes");
        reveal_strlit("total_read_bytes");
        reveal_strlit("read_bytes");
        assert("total_written_bytes"@.len() == 19);
        assert("written_bytes"@.len() == 13);
        assert("total_read_bytes"@.len() == 16);
        assert("read_bytes"@.len() == 10);
        assert forall|k: Seq<char>| !(k == "total_written_bytes"@ || k == "written_bytes"@ || k == "total_read_bytes"@ || k == "read_bytes"@) implies #[trigger] map_lookup(entries@, k) is None by {}
    }
    MeasurementValue::Dict(entries)
}

/// `v` is the map of the statistics of process `p` that the flags `f`
/// enable (the parent only when there is one); the `cmd` entry holds the
/// process name.
pub open spec fn process_value_ok(v: MeasurementValue, p: ProcessInfo, f: ProcessStatConfig) -> bool {
    let d = v->Dict_0@;
    &&& v is Dict
    &&& distinct_keys(d)
    &&& map_lookup(d, "cmd"@) == if f.cmd {
        Some(MeasurementValue::Text(p.name))
    } else {
        None
    }
    &&& map_lookup(d, "cwd"@) == if f.cwd {
        Some(MeasurementValue::Text(p.cwd))
    } else {
        None
    }
    &&& map_lookup(d, "cpu_usage"@) == if f.cpu_usage {
        Some(MeasurementValue::Float(p.cpu_usage))
    } else {
        None
    }
    &&& if f.disk_usage {
        map_lookup(d, "disk_usage"@) matches Some(u) && disk_usage_value_ok(u, p.disk_usage)
    } else {
        map_lookup(d, "disk_usage"@) is None
    }
    &&& map_lookup(d, "exe"@) == if f.exe {
        Some(MeasurementValue::Text(p.exe))
    } else {
        None
    }
    &&& map_lookup(d, "memory"@) == if f.memory {
        Some(MeasurementValue::Float(p.memory))
    } else {
        None
    }
    &&& map_lookup(d, "name"@) == if f.name {
        Some(MeasurementValue::Text(p.name))
    } else {
        None
    }
    &&& map_lookup(d, "pid"@) == if f.pid {
        Some(MeasurementValue::Float(p.pid))
    } else {
        None
    }
    &&& map_lookup(d, "root"@) == if f.root {
        Some(MeasurementValue::Text(p.root))
    } else {
        None
    }
    &&& map_lookup(d, "run_time"@) == if f.run_time {
        Some(MeasurementValue::Float(p.run_time))
    } else {
        None
    }
    &&& map_lookup(d, "start_time"@) == if f.start_time {
        Some(MeasurementValue::Float(p.start_time))
    } else {
        None
    }
    &&& map_lookup(d, "vmemory"@) == if f.vmemory {
        Some(MeasurementValue::Float(p.vmemory))
    } else {
        None
    }
    &&& map_lookup(d, "parent"@) == if f.parent && p.parent is Some {
        Some(MeasurementValue::Float(p.parent->0))
    } else {
        None
    }
    &&& forall|k: Seq<char>| !(k == "cmd"@ || k == "cwd"@ || k == "cpu_usage"@ || k == "disk_usage"@ || k == "exe"@ || k == "memory"@ || k == "name"@ || k == "pid"@ || k == "root"@ || k == "run_time"@ || k == "start_time"@ || k == "vmemory"@ || k == "parent"@) ==> #[trigger] map_lookup(d, k) is None
}

/// The flags that hold for the process `name`: a flag holds when it is set
/// for all processes or for that name.
pub open spec fn effective_flags(all: ProcessStatConfig, by_name: Option<ProcessStatConfig>) -> ProcessStatConfig {
    match by_name {
        Some(n) => {
            let a = all;
            ProcessStatConfig {
            cmd: a.cmd || n.cmd,
            cwd: a.cwd || n.cwd,
            cpu_usage: a.cpu_usage || n.cpu_usage,
            disk_usage: a.disk_usage || n.disk_usage,
            exe: a.exe || n.exe,
            memory: a.memory || n.memory,
            name: a.name || n.name,
            parent: a.parent || n.parent,
            pid: a.pid || n.pid,
            root: a.root || n.root,
            run_time: a.run_time || n.run_time,
            start_time: a.start_time || n.start_time,
            vmemory: a.vmemory || n.vmemory,
            }
        },
        None => all,
    }
}

fn combine_flags(a: &ProcessStatConfig, n: &ProcessStatConfig) -> (r: ProcessStatConfig)
    ensures
        r == effective_flags(*a, Some(*n)),
{
    ProcessStatConfig {
        cmd: a.cmd || n.cmd,
        cwd: a.cwd || n.cwd,
        cpu_usage: a.cpu_usage || n.cpu_usage,
        disk_usage: a.disk_usage || n.disk_usage,
        exe: a.exe || n.exe,
        memory: a.memory || n.memory,
        name: a.name || n.name,
        parent: a.parent || n.parent,
        pid: a.pid || n.pid,
        root: a.root || n.root,
        run_time: a.run_time || n.run_time,
        start_time: a.start_time || n.start_time,
        vmemory: a.vmemory || n.vmemory,
    }
}

/// What the process statistics loop keeps between two rounds.
pub struct ProcessState {
    pub interval: u64,
    pub send_to: Vec<String>,
    /// Whether the processor usage of processes is to be refreshed
    pub refresh_cpu: bool,
    /// Whether the disk usage of processes is to be refreshed
    pub refresh_disk_usage: bool,
    pub all_processes: AllProcessConfig,
    pub by_name: Vec<(String, ProcessStatConfig)>,
}

/// A process is reported when all processes are, or when it is named.
pub open spec fn process_selected(s: ProcessState, name: Seq<char>) -> bool {
    s.all_processes.enable || map_lookup(s.by_name@, name) is Some
}

/// The flags that hold for the process `name`: reporting all processes uses
/// the flags for all processes alone (it disables the reporting by name);
/// otherwise a flag holds when it is set for all processes or for that name.
pub open spec fn process_flags(s: ProcessState, name: Seq<char>) -> ProcessStatConfig {
    if s.all_processes.enable {
        s.all_processes.config
    } else {
        effective_flags(s.all_processes.config, map_lookup(s.by_name@, name))
    }
}

fn copy_by_name(v: &Vec<(String, ProcessStatConfig)>) -> (r: Vec<(String, ProcessStatConfig)>)
    ensures
        r@ == v@,
{
    let mut r: Vec<(String, ProcessStatConfig)> = Vec::new();
    for i in 0..v.len()
        invariant
            r@ == v@.take(i as int),
    {
        r.push((v[i].0.clone(), v[i].1));
        assert(r@ =~= v@.take(i + 1));
    }
    assert(v@.take(v@.len() as int) =~= v@);
    r
}

impl ProcessState {
    /// This state is the one that configuration `c` and targets `addrs` give.
    pub open spec fn built_from(self, c: ProcessConfig, addrs: Seq<String>) -> bool {
        &&& self.interval == c.base.spec_interval_ms()
        &&& self.send_to@ == addrs
        &&& self.refresh_cpu == c.all_processes.config.cpu_usage
        &&& self.refresh_disk_usage == c.all_processes.config.disk_usage
        &&& self.all_processes == c.all_processes
        &&& self.by_name@ == c.by_name@
    }

    /// The flags that hold for the process `name`.
    pub fn flags_for(&self, name: &String) -> (f: ProcessStatConfig)
        ensures
            f == process_flags(*self, name@),
    {
        if self.all_processes.enable {
            return self.all_processes.config;
        }
        match map_get(&self.by_name, name) {
            Some(n) => combine_flags(&self.all_processes.config, n),
            None => self.all_processes.config,
        }
    }

    /// The measurements of one round, one per process in the order given: a
    /// process that is not reported gives none; any other gives a
    /// measurement named `processes` whose value is the map of its enabled
    /// statistics.
    pub fn measurements(&self, processes: &Vec<ProcessInfo>) -> (ms: Vec<Option<Measurement>>)
        ensures
            ms@.len() == processes@.len(),
            forall|i: int|
                0 <= i < ms@.len() ==> if process_selected(*self, processes@[i].name@) {
                    (#[trigger] ms@[i]) matches Some(m) && m.name@ == "processes"@ && process_value_ok(
                        m.value,
                        processes@[i],
                        process_flags(*self, processes@[i].name@),
                    )
                } else {
                    ms@[i] is None
                },
    {
        let mut ms: Vec<Option<Measurement>> = Vec::new();
        for i in 0..processes.len()
            invariant
                ms@.len() == i,
                forall|j: int|
                    0 <= j < i ==> if process_selected(*self, processes@[j].name@) {
                        (#[trigger] ms@[j]) matches Some(m) && m.name@ == "processes"@
                            && process_value_ok(m.value, processes@[j], process_flags(*self, processes@[j].name@))
                    } else {
                        ms@[j] is None
                    },
        {
            let p = &processes[i];
            let selected = self.all_processes.enable || map_get(&self.by_name, &p.name).is_some();
            if selected {
                let v = get_measurement(self, p);
                ms.push(Some(Measurement::new(owned("processes"), v)));
            } else {
                ms.push(None);
            }
        }
        ms
    }
}

fn parent_or_zero(parent: Option<u64>) -> (r: u64)
    ensures
        r == match parent {
            Some(x) => x,
            None => 0,
        },
{
    match parent {
        Some(x) => x,
        None => 0,
    }
}

/// The statistics of a process in the order they are stored; the parent
/// counts as enabled only when there is one.
pub open spec fn process_items(p: ProcessInfo, f: ProcessStatConfig, du: MeasurementValue) -> Seq<
    (bool, Seq<char>, MeasurementValue),
> {
    seq![
        (f.cmd, "cmd"@, MeasurementValue::Text(p.name)),
        (f.cwd, "cwd"@, MeasurementValue::Text(p.cwd)),
        (f.cpu_usage, "cpu_usage"@, MeasurementValue::Float(p.cpu_usage)),
        (f.disk_usage, "disk_usage"@, du),
        (f.exe, "exe"@, MeasurementValue::Text(p.exe)),
        (f.memory, "memory"@, MeasurementValue::Float(p.memory)),
        (f.name, "name"@, MeasurementValue::Text(p.name)),
        (f.pid, "pid"@, MeasurementValue::Float(p.pid)),
        (f.root, "root"@, MeasurementValue::Text(p.root)),
        (f.run_time, "run_time"@, MeasurementValue::Float(p.run_time)),
        (f.start_time, "start_time"@, MeasurementValue::Float(p.start_time)),
        (f.vmemory, "vmemory"@, MeasurementValue::Float(p.vmemory)),
        (f.parent && p.parent is Some, "parent"@, MeasurementValue::Float(match p.parent {
            Some(x) => x,
            None => 0,
        })),
    ]
}

proof fn lemma_process_items(p: ProcessInfo, f: ProcessStatConfig, du: MeasurementValue)
    ensures
        lookup_after_inserts(process_items(p, f, du), "cmd"@) == if f.cmd {
            Some(MeasurementValue::Text(p.name))
        } else {
            None
        },
        lookup_after_inserts(process_items(p, f, du), "cwd"@) == if f.cwd {
            Some(MeasurementValue::Text(p.cwd))
        } else {
            None
        },
        lookup_after_inserts(process_items(p, f, du), "cpu_usage"@) == if f.cpu_usage {
            Some(MeasurementValue::Float(p.cpu_usage))
        } else {
            None
        },
        lookup_after_inserts(process_items(p, f, du), "disk_usage"@) == if f.disk_usage {
            Some(du)
        } else {
            None
        },
        lookup_after_inserts(process_items(p, f, du), "exe"@) == if f.exe {
            Some(MeasurementValue::Text(p.exe))
        } else {
            None
        },
        lookup_after_inserts(process_items(p, f, du), "memory"@) == if f.memory {
            Some(MeasurementValue::Float(p.memory))
        } else {
            None
        },
        lookup_after_inserts(process_items(p, f, du), "name"@) == if f.name {
            Some(MeasurementValue::Text(p.name))
        } else {
            None
        },
        lookup_after_inserts(process_items(p, f, du), "pid"@) == if f.pid {
            Some(MeasurementValue::Float(p.pid))
        } else {
            None
        },
        lookup_after_inserts(process_items(p, f, du), "root"@) == if f.root {
            Some(MeasurementValue::Text(p.root))
        } else {
            None
        },
        lookup_after_inserts(process_items(p, f, du), "run_time"@) == if f.run_time {
            Some(MeasurementValue::Float(p.run_time))
        } else {
            None
        },
        lookup_after_inserts(process_items(p, f, du), "start_time"@) == if f.start_time {
            Some(MeasurementValue::Float(p.start_time))
        } else {
            None
        },
        lookup_after_inserts(process_items(p, f, du), "vmemory"@) == if f.vmemory {
            Some(MeasurementValue::Float(p.vmemory))
        } else {
            None
        },
        lookup_after_inserts(process_items(p, f, du), "parent"@) == if f.parent && p.parent is Some {
            Some(MeasurementValue::Float(p.parent->0))
        } else {
            None
        },
        forall|k: Seq<char>|
            !(k == "cmd"@ || k == "cwd"@ || k == "cpu_usage"@ || k == "disk_usage"@ || k == "exe"@ || k == "memory"@ || k == "name"@ || k == "pid"@ || k == "root"@ || k == "run_time"@ || k == "start_time"@ || k == "vmemory"@ || k == "parent"@) ==> #[trigger] lookup_after_inserts(process_items(p, f, du), k) is None,
{
    let items = process_items(p, f, du);
    assert forall|a: int, b: int|
        0 <= a < items.len() && 0 <= b < items.len() && a != b implies #[trigger] items[a].1
        != #[trigger] items[b].1 by {
        reveal_strlit("cmd");
        reveal_strlit("cwd");
        reveal_strlit("cpu_usage");
        reveal_strlit("disk_usage");
        reveal_strlit("exe");
        reveal_strlit("memory");
        reveal_strlit("name");
        reveal_strlit("pid");
        reveal_strlit("root");
        reveal_strlit("run_time");
        reveal_strlit("start_time");
        reveal_strlit("vmemory");
        reveal_strlit("parent");
        assert("cmd"@.len() == 3);
        assert("cwd"@.len() == 3);
        assert("cpu_usage"@.len() == 9);
        assert("disk_usage"@.len() == 10);
        assert("exe"@.len() == 3);
        assert("memory"@.len() == 6);
        assert("name"@.len() == 4);
        assert("pid"@.len() == 3);
        assert("root"@.len() == 4);
        assert("run_time"@.len() == 8);
        assert("start_time"@.len() == 10);
        assert("vmemory"@.len() == 7);
        assert("parent"@.len() == 6);
        assert("cmd"@[1] != "cwd"@[1]);
        assert("cmd"@[0] != "exe"@[0]);
        assert("cmd"@[0] != "pid"@[0]);
        assert("cwd"@[0] != "exe"@[0]);
        assert("cwd"@[0] != "pid"@[0]);
        assert("disk_usage"@[0] != "start_time"@[0]);
        assert("exe"@[0] != "pid"@[0]);
        assert("memory"@[0] != "parent"@[0]);
        assert("name"@[0] != "root"@[0]);
    }
    lemma_lookup_after_inserts_distinct(items, 0);
    lemma_lookup_after_inserts_distinct(items, 1);
    lemma_lookup_after_inserts_distinct(items, 2);
    lemma_lookup_after_inserts_distinct(items, 3);
    lemma_lookup_after_inserts_distinct(items, 4);
    lemma_lookup_after_inserts_distinct(items, 5);
    lemma_lookup_after_inserts_distinct(items, 6);
    lemma_lookup_after_inserts_distinct(items, 7);
    lemma_lookup_after_inserts_distinct(items, 8);
    lemma_lookup_after_inserts_distinct(items, 9);
    lemma_lookup_after_inserts_distinct(items, 10);
    lemma_lookup_after_inserts_distinct(items, 11);
    lemma_lookup_after_inserts_distinct(items, 12);
    assert forall|k: Seq<char>| !(k == "cmd"@ || k == "cwd"@ || k == "cpu_usage"@ || k == "disk_usage"@ || k == "exe"@ || k == "memory"@ || k == "name"@ || k == "pid"@ || k == "root"@ || k == "run_time"@ || k == "start_time"@ || k == "vmemory"@ || k == "parent"@) implies #[trigger] lookup_after_inserts(items, k) is None by {
        lemma_lookup_after_inserts_absent(items, k);
    }
}

proof fn lemma_process_value(v: MeasurementValue, p: ProcessInfo, f: ProcessStatConfig, du: MeasurementValue)
    requires
        v is Dict,
        distinct_keys(v->Dict_0@),
        disk_usage_value_ok(du, p.disk_usage),
        forall|k: Seq<char>|
            #[trigger] map_lookup(v->Dict_0@, k) == lookup_after_inserts(process_items(p, f, du), k),
    ensures
        process_value_ok(v, p, f),
{
    lemma_process_items(p, f, du);
}

/// The map of the statistics of a process that apply to it.
#[verifier::rlimit(80)]
pub fn get_measurement(state: &ProcessState, process: &ProcessInfo) -> (v: MeasurementValue)
    ensures
        process_value_ok(v, *process, process_flags(*state, process.name@)),
{
    let f = state.flags_for(&process.name);
    let du = disk_usage_value(&process.disk_usage);
    let parent = parent_or_zero(process.parent);
    let ghost duv = du;
    let items = vec![
        (f.cmd, owned("cmd"), MeasurementValue::Text(process.name.clone())),
        (f.cwd, owned("cwd"), MeasurementValue::Text(process.cwd.clone())),
        (f.cpu_usage, owned("cpu_usage"), MeasurementValue::Float(process.cpu_usage)),
        (f.disk_usage, owned("disk_usage"), du),
        (f.exe, owned("exe"), MeasurementValue::Text(process.exe.clone())),
        (f.memory, owned("memory"), MeasurementValue::Float(process.memory)),
        (f.name, owned("name"), MeasurementValue::Text(process.name.clone())),
        (f.pid, owned("pid"), MeasurementValue::Float(process.pid)),
        (f.root, owned("root"), MeasurementValue::Text(process.root.clone())),
        (f.run_time, owned("run_time"), MeasurementValue::Float(process.run_time)),
        (f.start_time, owned("start_time"), MeasurementValue::Float(process.start_time)),
        (f.vmemory, owned("vmemory"), MeasurementValue::Float(process.vmemory)),
        (f.parent && process.parent.is_some(), owned("parent"), MeasurementValue::Float(parent)),
    ];
    assert(items_view(items@) =~= process_items(*process, f, duv));
    let entries = insert_all(items);
    proof {
        lemma_process_value(MeasurementValue::Dict(entries), *process, f, duv);
    }
    MeasurementValue::Dict(entries)
}

impl StateFromConfig for ProcessState {
    /// The state of the process statistics loop, if the configuration has a
    /// process section. Processor and disk usage are refreshed when they are
    /// reported for all processes.
    fn new_from_config(config: &SysStatConfig, addrs: Vec<String>) -> (r: Option<ProcessState>)
        ensures
            r is Some <==> config.process is Some,
            r matches Some(s) ==> s.built_from(config.process->0, addrs@),
    {
        match &config.process {
            Some(c) => Some(
                ProcessState {
                    interval: c.interval_ms(),
                    send_to: addrs,
                    refresh_cpu: c.all_processes.config.cpu_usage,
                    refresh_disk_usage: c.all_processes.config.disk_usage,
                    all_processes: AllProcessConfig {
                        enable: c.all_processes.enable,
                        config: c.all_processes.config,
                    },
                    by_name: copy_by_name(&c.by_name),
                },
            ),
            None => None,
        }
    }
}

impl State for ProcessState {
    fn interval(&self) -> (i: u64)
        ensures
            i == self.interval,
    {
        self.interval
    }
}

/// The flags that hold for a process: when all processes are reported,
/// exactly the flags for all processes (reporting by name is off); otherwise,
/// for a process named in `by_name`, each statistic is on when it is on for
/// all processes or for that name, and for any other process the flags for
/// all processes hold.
pub proof fn lemma_process_flags(s: ProcessState, name: Seq<char>)
    ensures
        s.all_processes.enable ==> process_flags(s, name) == s.all_processes.config,
        (!s.all_processes.enable && map_lookup(s.by_name@, name) is None) ==> process_flags(s, name)
            == s.all_processes.config,
        map_lookup(s.by_name@, name) matches Some(n) ==> (!s.all_processes.enable ==> {
                &&& process_flags(s, name).cmd == (s.all_processes.config.cmd || n.cmd)
                &&& process_flags(s, name).cwd == (s.all_processes.config.cwd || n.cwd)
                &&& process_flags(s, name).cpu_usage == (s.all_processes.config.cpu_usage || n.cpu_usage)
                &&& process_flags(s, name).disk_usage == (s.all_processes.config.disk_usage || n.disk_usage)
                &&& process_flags(s, name).exe == (s.all_processes.config.exe || n.exe)
                &&& process_flags(s, name).memory == (s.all_processes.config.memory || n.memory)
                &&& process_flags(s, name).name == (s.all_processes.config.name || n.name)
                &&& process_flags(s, name).parent == (s.all_processes.config.parent || n.parent)
                &&& process_flags(s, name).pid == (s.all_processes.config.pid || n.pid)
                &&& process_flags(s, name).root == (s.all_processes.config.root || n.root)
                &&& process_flags(s, name).run_time == (s.all_processes.config.run_time || n.run_time)
                &&& process_flags(s, name).start_time == (s.all_processes.config.start_time || n.start_time)
                &&& process_flags(s, name).vmemory == (s.all_processes.config.vmemory || n.vmemory)
            }),
{
}

} // verus!
