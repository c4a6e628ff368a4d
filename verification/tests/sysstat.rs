use tedge_plugins::measurement::map_get;
use tedge_plugins::measurement::Measurement;
use tedge_plugins::measurement::MeasurementValue;
use tedge_plugins::sysstat::config::available_memory_name_default;
use tedge_plugins::sysstat::config::brand_default_name;
use tedge_plugins::sysstat::config::cpu_usage_default_name;
use tedge_plugins::sysstat::config::errors_on_received_name_default;
use tedge_plugins::sysstat::config::free_memory_name_default;
use tedge_plugins::sysstat::config::free_swap_name_default;
use tedge_plugins::sysstat::config::frequency_default_name;
use tedge_plugins::sysstat::config::global_processor_info_name_default;
use tedge_plugins::sysstat::config::name_default_name;
use tedge_plugins::sysstat::config::packets_received_name_default;
use tedge_plugins::sysstat::config::packets_transmitted_name_default;
use tedge_plugins::sysstat::config::physical_core_count_name_default;
use tedge_plugins::sysstat::config::processor_info_name_default;
use tedge_plugins::sysstat::config::received_name_default;
use tedge_plugins::sysstat::config::total_errors_on_received_name_default;
use tedge_plugins::sysstat::config::total_memory_name_default;
use tedge_plugins::sysstat::config::total_packets_received_name_default;
use tedge_plugins::sysstat::config::total_packets_transmitted_name_default;
use tedge_plugins::sysstat::config::total_received_name_default;
use tedge_plugins::sysstat::config::total_transmitted_name_default;
use tedge_plugins::sysstat::config::transmitted_name_default;
use tedge_plugins::sysstat::config::used_memory_name_default;
use tedge_plugins::sysstat::config::used_swap_name_default;
use tedge_plugins::sysstat::config::vendor_id_default_name;
use tedge_plugins::sysstat::config::AllNetworkStatConfig;
use tedge_plugins::sysstat::config::AllProcessConfig;
use tedge_plugins::sysstat::config::BaseConfig;
use tedge_plugins::sysstat::config::CpuConfig;
use tedge_plugins::sysstat::config::DiskUsageConfig;
use tedge_plugins::sysstat::config::HasBaseConfig;
use tedge_plugins::sysstat::config::LoadConfig;
use tedge_plugins::sysstat::config::MemoryConfig;
use tedge_plugins::sysstat::config::NetworkConfig;
use tedge_plugins::sysstat::config::NetworkStatConfig;
use tedge_plugins::sysstat::config::PhysicalCoreCountConfig;
use tedge_plugins::sysstat::config::ProcessConfig;
use tedge_plugins::sysstat::config::ProcessStatConfig;
use tedge_plugins::sysstat::config::ProcessorInfoConfig;
use tedge_plugins::sysstat::config::SysStatConfig;
use tedge_plugins::sysstat::cpu::get_processor_info_measurements;
use tedge_plugins::sysstat::cpu::CPUState;
use tedge_plugins::sysstat::cpu::ProcessorInfo;
use tedge_plugins::sysstat::disk_usage::DiskInfo;
use tedge_plugins::sysstat::disk_usage::DiskKind;
use tedge_plugins::sysstat::disk_usage::DiskUsageState;
use tedge_plugins::sysstat::load::LoadInfo;
use tedge_plugins::sysstat::load::LoadState;
use tedge_plugins::sysstat::memory::MemoryInfo;
use tedge_plugins::sysstat::memory::MemoryState;
use tedge_plugins::sysstat::network::get_network_info_measurements;
use tedge_plugins::sysstat::network::NetworkInfo;
use tedge_plugins::sysstat::network::NetworkState;
use tedge_plugins::sysstat::plugin::SysStatPluginBuilder;
use tedge_plugins::sysstat::process::DiskUsageInfo;
use tedge_plugins::sysstat::process::ProcessInfo;
use tedge_plugins::sysstat::process::ProcessState;
use tedge_plugins::sysstat::State;
use tedge_plugins::sysstat::StateFromConfig;
use tedge_plugins::sysstat::Error;

fn f(x: f64) -> u64 {
    x.to_bits()
}

fn get<'a>(v: &'a MeasurementValue, k: &str) -> Option<&'a MeasurementValue> {
    match v {
        MeasurementValue::Dict(d) => map_get(d, &k.to_string()),
        _ => panic!("not a map"),
    }
}

fn dict_len(v: &MeasurementValue) -> usize {
    match v {
        MeasurementValue::Dict(d) => d.len(),
        _ => panic!("not a map"),
    }
}

fn base(ms: u64) -> BaseConfig {
    BaseConfig::new(vec!["target".to_string()], ms).unwrap()
}

#[test]
fn default_names() {
    assert_eq!(total_memory_name_default(), "total_memory_name");
    assert_eq!(free_memory_name_default(), "free_memory_name");
    assert_eq!(available_memory_name_default(), "available_memory_name");
    assert_eq!(used_memory_name_default(), "used_memory_name");
    assert_eq!(free_swap_name_default(), "free_swap_name");
    assert_eq!(used_swap_name_default(), "used_swap_name");
    assert_eq!(received_name_default(), "received");
    assert_eq!(total_received_name_default(), "total_received");
    assert_eq!(transmitted_name_default(), "transmitted");
    assert_eq!(total_transmitted_name_default(), "total_transmitted");
    assert_eq!(packets_received_name_default(), "packets_received");
    assert_eq!(total_packets_received_name_default(), "total_packets_received");
    assert_eq!(packets_transmitted_name_default(), "packets_transmitted");
    assert_eq!(total_packets_transmitted_name_default(), "total_packets_transmitted");
    assert_eq!(errors_on_received_name_default(), "errors_on_received");
    assert_eq!(total_errors_on_received_name_default(), "total_errors_on_received");
    assert_eq!(global_processor_info_name_default(), "global_processor_info");
    assert_eq!(processor_info_name_default(), "processor_info");
    assert_eq!(physical_core_count_name_default(), "physical_core_count");
    assert_eq!(frequency_default_name(), "frequency");
    assert_eq!(cpu_usage_default_name(), "cpu_usage");
    assert_eq!(name_default_name(), "name");
    assert_eq!(vendor_id_default_name(), "vendor_id");
    assert_eq!(brand_default_name(), "brand");
}

#[test]
fn base_config_refuses_zero_interval() {
    assert!(BaseConfig::new(vec![], 0).is_none());
    let b = base(100);
    assert_eq!(b.interval_ms(), 100);
    assert_eq!(b.send_to(), &vec!["target".to_string()]);
}

fn memory_config(total: bool, free_name: &str) -> MemoryConfig {
    MemoryConfig {
        base: base(250),
        total_memory: total,
        total_memory_name: total_memory_name_default(),
        free_memory: true,
        free_memory_name: free_name.to_string(),
        available_memory: false,
        available_memory_name: available_memory_name_default(),
        used_memory: true,
        used_memory_name: "shared".to_string(),
        free_swap: false,
        free_swap_name: free_swap_name_default(),
        used_swap: true,
        used_swap_name: "shared".to_string(),
    }
}

fn empty_config() -> SysStatConfig {
    SysStatConfig { memory: None, network: None, cpu: None, disk_usage: None, load: None, process: None }
}

#[test]
fn memory_measurement() {
    let mut cfg = empty_config();
    cfg.memory = Some(memory_config(true, "free"));
    assert_eq!(cfg.memory.as_ref().unwrap().interval_ms(), 250);
    let s = MemoryState::new_from_config(&cfg, vec!["a".to_string()]).unwrap();
    assert_eq!(s.interval(), 250);
    let info = MemoryInfo {
        total_memory: f(8.0),
        free_memory: f(2.0),
        available_memory: f(3.0),
        used_memory: f(4.0),
        free_swap: f(5.0),
        used_swap: f(6.0),
    };
    let m = s.measurement(&info);
    assert_eq!(m.name, "memory");
    assert_eq!(get(&m.value, "total_memory_name"), Some(&MeasurementValue::Float(f(8.0))));
    assert_eq!(get(&m.value, "free"), Some(&MeasurementValue::Float(f(2.0))));
    // both "used_memory" and "used_swap" are reported under "shared": the later one wins
    assert_eq!(get(&m.value, "shared"), Some(&MeasurementValue::Float(f(6.0))));
    assert_eq!(get(&m.value, "available_memory_name"), None);
    assert_eq!(dict_len(&m.value), 3);
    assert!(MemoryState::new_from_config(&empty_config(), vec![]).is_none());
}

fn stat_config(received: bool) -> NetworkStatConfig {
    NetworkStatConfig {
        received,
        received_name: received_name_default(),
        total_received: true,
        total_received_name: "rx".to_string(),
        transmitted: false,
        transmitted_name: transmitted_name_default(),
        total_transmitted: false,
        total_transmitted_name: total_transmitted_name_default(),
        packets_received: false,
        packets_received_name: packets_received_name_default(),
        total_packets_received: false,
        total_packets_received_name: total_packets_received_name_default(),
        packets_transmitted: false,
        packets_transmitted_name: packets_transmitted_name_default(),
        total_packets_transmitted: false,
        total_packets_transmitted_name: total_packets_transmitted_name_default(),
        errors_on_received: false,
        errors_on_received_name: errors_on_received_name_default(),
        total_errors_on_received: false,
        total_errors_on_received_name: total_errors_on_received_name_default(),
    }
}

fn net_info(x: f64) -> NetworkInfo {
    NetworkInfo {
        received: f(x),
        total_received: f(x + 1.0),
        transmitted: f(0.0),
        total_transmitted: f(0.0),
        packets_received: f(0.0),
        total_packets_received: f(0.0),
        packets_transmitted: f(0.0),
        total_packets_transmitted: f(0.0),
        errors_on_received: f(0.0),
        total_errors_on_received: f(0.0),
    }
}

#[test]
fn network_measurements_by_name() {
    let mut cfg = empty_config();
    cfg.network = Some(NetworkConfig {
        base: base(1000),
        all_networks: AllNetworkStatConfig { enable: false, config: stat_config(false) },
        by_name: vec![("eth0".to_string(), stat_config(true))],
    });
    let s = NetworkState::new_from_config(&cfg, vec![]).unwrap();
    let ms = s.measurements(&vec![("lo".to_string(), net_info(1.0)), ("eth0".to_string(), net_info(5.0))]);
    assert_eq!(ms.len(), 2);
    assert!(ms[0].is_none());
    let m = ms[1].as_ref().unwrap();
    assert_eq!(m.name, "eth0");
    assert_eq!(get(&m.value, "received"), Some(&MeasurementValue::Float(f(5.0))));
    assert_eq!(get(&m.value, "rx"), Some(&MeasurementValue::Float(f(6.0))));
    assert_eq!(dict_len(&m.value), 2);
    let v = get_network_info_measurements(&net_info(1.0), &stat_config(false));
    assert_eq!(dict_len(&v), 1);
}

#[test]
fn network_measurements_all() {
    let mut cfg = empty_config();
    cfg.network = Some(NetworkConfig {
        base: base(1000),
        all_networks: AllNetworkStatConfig { enable: true, config: stat_config(false) },
        by_name: vec![("eth0".to_string(), stat_config(true))],
    });
    let s = NetworkState::new_from_config(&cfg, vec![]).unwrap();
    let ms = s.measurements(&vec![("lo".to_string(), net_info(1.0)), ("eth0".to_string(), net_info(5.0))]);
    assert!(ms.iter().all(|m| m.is_some()));
    assert_eq!(get(&ms[1].as_ref().unwrap().value, "received"), None);
}

fn proc_cfg(enable: bool) -> ProcessorInfoConfig {
    ProcessorInfoConfig {
        enable,
        frequency: true,
        frequency_name: frequency_default_name(),
        cpu_usage: true,
        cpu_usage_name: cpu_usage_default_name(),
        name: true,
        name_name: name_default_name(),
        vendor_id: false,
        vendor_id_name: vendor_id_default_name(),
        brand: true,
        brand_name: brand_default_name(),
    }
}

fn processor(n: &str) -> ProcessorInfo {
    ProcessorInfo {
        frequency: f(2400.0),
        cpu_usage: f(12.5),
        name: n.to_string(),
        vendor_id: "GenuineIntel".to_string(),
        brand: "Intel".to_string(),
    }
}

#[test]
fn cpu_measurements() {
    let mut cfg = empty_config();
    cfg.cpu = Some(CpuConfig {
        base: base(500),
        report_global_processor_info: proc_cfg(true),
        global_processor_info_name: global_processor_info_name_default(),
        report_processor_info: proc_cfg(true),
        processor_info_name: processor_info_name_default(),
        report_physical_core_count: PhysicalCoreCountConfig { enable: true },
        physical_core_count_name: physical_core_count_name_default(),
    });
    let s = CPUState::new_from_config(&cfg, vec![]).unwrap();
    let ms = s.measurements(&processor("cpu"), &vec![processor("cpu0"), processor("cpu1")], Some(f(4.0)));
    assert_eq!(ms.len(), 4);
    assert_eq!(ms[0].name, "global_processor_info");
    assert_eq!(ms[1].name, "processor_info");
    assert_eq!(get(&ms[2].value, "name"), Some(&MeasurementValue::Text("cpu1".to_string())));
    assert_eq!(get(&ms[2].value, "vendor_id"), None);
    assert_eq!(ms[3].name, "physical_core_count");
    assert_eq!(ms[3].value, MeasurementValue::Float(f(4.0)));
    let ms = s.measurements(&processor("cpu"), &vec![], None);
    assert_eq!(ms.len(), 1);
    let v = get_processor_info_measurements(&processor("x"), &proc_cfg(false));
    assert_eq!(dict_len(&v), 4);
}

fn process(name: &str, parent: Option<u64>) -> ProcessInfo {
    ProcessInfo {
        name: name.to_string(),
        cwd: "/".to_string(),
        cpu_usage: f(1.5),
        disk_usage: DiskUsageInfo {
            total_written_bytes: f(1.0),
            written_bytes: f(2.0),
            total_read_bytes: f(3.0),
            read_bytes: f(4.0),
        },
        exe: "/bin/x".to_string(),
        memory: f(100.0),
        pid: f(42.0),
        root: "/".to_string(),
        run_time: f(10.0),
        start_time: f(20.0),
        vmemory: f(200.0),
        parent,
    }
}

fn flags(on: bool) -> ProcessStatConfig {
    ProcessStatConfig {
        cmd: on,
        cwd: false,
        cpu_usage: false,
        disk_usage: on,
        exe: false,
        memory: false,
        name: false,
        parent: on,
        pid: true,
        root: false,
        run_time: false,
        start_time: false,
        vmemory: false,
    }
}

#[test]
fn process_measurements() {
    let mut cfg = empty_config();
    cfg.process = Some(ProcessConfig {
        base: base(100),
        all_processes: AllProcessConfig { enable: false, config: flags(false) },
        by_name: vec![("sshd".to_string(), flags(true))],
    });
    let s = ProcessState::new_from_config(&cfg, vec![]).unwrap();
    assert!(!s.refresh_cpu);
    assert!(!s.refresh_disk_usage);
    let ms = s.measurements(&vec![process("bash", None), process("sshd", Some(1)), process("sshd", None)]);
    assert!(ms[0].is_none());
    let m = ms[1].as_ref().unwrap();
    assert_eq!(m.name, "processes");
    assert_eq!(get(&m.value, "cmd"), Some(&MeasurementValue::Text("sshd".to_string())));
    assert_eq!(get(&m.value, "pid"), Some(&MeasurementValue::Float(f(42.0))));
    assert_eq!(get(&m.value, "parent"), Some(&MeasurementValue::Float(1)));
    let du = get(&m.value, "disk_usage").unwrap();
    assert_eq!(get(du, "read_bytes"), Some(&MeasurementValue::Float(f(4.0))));
    assert_eq!(dict_len(&m.value), 4);
    let m = ms[2].as_ref().unwrap();
    assert_eq!(get(&m.value, "parent"), None);
    assert_eq!(dict_len(&m.value), 3);
}

#[test]
fn all_processes_disables_reporting_by_name() {
    let mut cfg = empty_config();
    cfg.process = Some(ProcessConfig {
        base: base(100),
        all_processes: AllProcessConfig { enable: true, config: flags(false) },
        by_name: vec![("sshd".to_string(), flags(true))],
    });
    let s = ProcessState::new_from_config(&cfg, vec![]).unwrap();
    assert_eq!(s.flags_for(&"sshd".to_string()), flags(false));
    let ms = s.measurements(&vec![process("bash", None), process("sshd", Some(1))]);
    for m in &ms {
        let m = m.as_ref().unwrap();
        assert_eq!(get(&m.value, "pid"), Some(&MeasurementValue::Float(f(42.0))));
        assert_eq!(get(&m.value, "cmd"), None);
        assert_eq!(get(&m.value, "parent"), None);
        assert_eq!(dict_len(&m.value), 1);
    }
}

#[test]
fn disk_and_load_measurements() {
    let mut cfg = empty_config();
    cfg.disk_usage = Some(DiskUsageConfig { base: base(100) });
    cfg.load = Some(LoadConfig { base: base(300) });
    let d = DiskUsageState::new_from_config(&cfg, vec![]).unwrap();
    let disks = vec![
        DiskInfo {
            name: Some("sda1".to_string()),
            file_system: b"ext4".to_vec(),
            kind: DiskKind::SSD,
            mount_point: "/".to_string(),
            total_space: f(100.0),
            available_space: f(50.0),
            removable: false,
        },
        DiskInfo {
            name: None,
            file_system: b"ext4".to_vec(),
            kind: DiskKind::HDD,
            mount_point: "/x".to_string(),
            total_space: f(1.0),
            available_space: f(1.0),
            removable: true,
        },
        DiskInfo {
            name: Some("sdb".to_string()),
            file_system: vec![0xff],
            kind: DiskKind::Unknown,
            mount_point: "/y".to_string(),
            total_space: f(1.0),
            available_space: f(1.0),
            removable: true,
        },
    ];
    let ms = d.measurements(&disks);
    let m: &Measurement = ms[0].as_ref().unwrap();
    assert_eq!(m.name, "sda1");
    assert_eq!(get(&m.value, "fs"), Some(&MeasurementValue::Text("ext4".to_string())));
    assert_eq!(get(&m.value, "type"), Some(&MeasurementValue::Text("SSD".to_string())));
    assert_eq!(get(&m.value, "removable"), Some(&MeasurementValue::Bool(false)));
    assert_eq!(dict_len(&m.value), 6);
    assert!(matches!(ms[1], Err(Error::CannotReadDiskName)));
    assert!(matches!(ms[2], Err(Error::Utf8Error)));

    let l = LoadState::new_from_config(&cfg, vec![]).unwrap();
    assert_eq!(l.interval(), 300);
    let m = l.measurement(&LoadInfo { one: f(0.5), five: f(1.0), fifteen: f(1.5) });
    assert_eq!(m.name, "load");
    assert_eq!(get(&m.value, "fifteen"), Some(&MeasurementValue::Float(f(1.5))));
    assert_eq!(dict_len(&m.value), 3);
}

#[test]
fn plugin_runs_configured_backends() {
    let mut cfg = empty_config();
    cfg.load = Some(LoadConfig { base: base(300) });
    cfg.memory = Some(memory_config(false, "free"));
    let p = SysStatPluginBuilder::instantiate(cfg);
    assert_eq!(p.addr_config.load, Some(vec!["target".to_string()]));
    assert!(p.addr_config.cpu.is_none());
    let b = p.backends();
    assert_eq!(b.load.as_ref().unwrap().interval, 300);
    assert_eq!(b.memory.as_ref().unwrap().interval, 250);
    assert!(b.cpu.is_none() && b.network.is_none() && b.process.is_none() && b.disk_usage.is_none());
    assert_eq!(SysStatPluginBuilder::kind_name(), "sysinfo");
}
