use node_agent::gpu::{
    adl_first_query, adl_next, amd_metrics, amd_summary, choose_gpu, handshake_info, is_amd_name,
    nvidia_metrics, nvidia_ready, wmi_amd_summary, wmi_has_amd_gpu, AdlQuery, AdlStep, AmdBackend,
    AmdGpu, AmdProbe, AmdSummary, GpuChoice, GpuIdentity, GpuReading, NvidiaDevice, NvidiaMemory,
    Temperature,
};
use node_agent::sysfs::{bytes_lt_exec, is_amd_vendor_exec, is_card_name_exec, AmdGpuReading, DrmEntry, HwmonDir, SysfsAmdGpu};

#[test]
fn amd_names() {
    assert!(is_amd_name("AMD Radeon RX 6800 XT"));
    assert!(is_amd_name("Radeon Pro"));
    assert!(is_amd_name("rx 580"));
    assert!(is_amd_name("Amd"));
    assert!(!is_amd_name("RX580"));
    assert!(!is_amd_name("NVIDIA GeForce RTX 3080"));
    assert!(!is_amd_name("Intel(R) UHD Graphics"));
    assert!(!is_amd_name(""));
}

#[test]
fn amd_name_ignores_ascii_case() {
    for n in ["aMd", "RADEON", "Rx 7900", "Matrox"] {
        assert_eq!(is_amd_name(n), is_amd_name(&n.to_ascii_lowercase()));
    }
}

#[test]
fn wmi_controllers() {
    assert!(wmi_has_amd_gpu(&["Microsoft Basic Display Adapter".to_string(), "AMD Radeon(TM) Graphics".to_string()]));
    assert!(!wmi_has_amd_gpu(&["Intel(R) Iris(R) Xe Graphics".to_string()]));
    assert!(!wmi_has_amd_gpu(&[]));
}

#[test]
fn card_names() {
    assert!(is_card_name_exec(b"card0"));
    assert!(is_card_name_exec(b"card12"));
    assert!(is_card_name_exec(b"card"));
    assert!(!is_card_name_exec(b"card0-DP-1"));
    assert!(!is_card_name_exec(b"renderD128"));
    assert!(!is_card_name_exec(b"car"));
    assert!(!is_card_name_exec(b"card1\xff"));
}

#[test]
fn byte_order_of_names() {
    assert!(bytes_lt_exec(b"card0", b"card1"));
    assert!(bytes_lt_exec(b"card1", b"card10"));
    assert!(bytes_lt_exec(b"card10", b"card2"));
    assert!(!bytes_lt_exec(b"card2", b"card2"));
    assert!(!bytes_lt_exec(b"card2", b"card10"));
    assert!(bytes_lt_exec(b"", b"a"));
}

#[test]
fn vendor_ids() {
    assert!(is_amd_vendor_exec("0x1002\n"));
    assert!(is_amd_vendor_exec(" 0X1002 "));
    assert!(!is_amd_vendor_exec("0x10de\n"));
    assert!(!is_amd_vendor_exec(""));
}

#[test]
fn gpu_name_from_uevent_or_hwmon() {
    let uevent = "DRIVER=amdgpu\nPCI_CLASS=30000\nPRODUCT= Navi 21 \r\nPRODUCT=other\n";
    assert_eq!(SysfsAmdGpu::read_name(Some(uevent), Some("amdgpu\n")), "AMD GPU (Navi 21)");
    assert_eq!(SysfsAmdGpu::read_name(Some("DRIVER=amdgpu\n"), Some("amdgpu\n")), "AMD GPU (amdgpu)");
    assert_eq!(SysfsAmdGpu::read_name(None, Some("amdgpu")), "AMD GPU (amdgpu)");
    assert_eq!(SysfsAmdGpu::read_name(Some("X=1\n"), Some(" \n")), "AMD GPU");
    assert_eq!(SysfsAmdGpu::read_name(None, None), "AMD GPU");
    assert_eq!(SysfsAmdGpu::read_name(Some("PRODUCT=\n"), None), "AMD GPU ()");
    assert_eq!(SysfsAmdGpu::read_name(Some(" PRODUCT=x\n"), None), "AMD GPU");
}

#[test]
fn read_u64_of_files() {
    assert_eq!(SysfsAmdGpu::read_u64(Some("37\n")), Some(37));
    assert_eq!(SysfsAmdGpu::read_u64(Some("x\n")), None);
    assert_eq!(SysfsAmdGpu::read_u64(None), None);
}

fn entry(name: &[u8], vendor: &str, busy: bool) -> DrmEntry {
    let n = String::from_utf8_lossy(name).to_string();
    DrmEntry {
        file_name: name.to_vec(),
        device_path: format!("/sys/class/drm/{n}/device").into_bytes(),
        device_exists: true,
        vendor: Some(vendor.to_string()),
        busy_percent_exists: busy,
        uevent: Some(format!("PRODUCT=gpu-{n}\n")),
        hwmon: Some(HwmonDir { path: format!("/sys/class/drm/{n}/device/hwmon/hwmon3").into_bytes(), name: Some("amdgpu\n".to_string()) }),
    }
}

#[test]
fn detect_picks_first_amd_card_by_name() {
    let entries = vec![
        entry(b"card2", "0x1002\n", true),
        entry(b"card1-DP-1", "0x1002\n", true),
        entry(b"card10", "0x1002\n", true),
        entry(b"card1", "0x10de\n", true),
        entry(b"card0", "0x1002\n", false),
        entry(b"renderD128", "0x1002\n", true),
    ];
    let g = SysfsAmdGpu::detect(&entries).unwrap();
    assert_eq!(g.device_path, b"/sys/class/drm/card10/device".to_vec());
    assert_eq!(g.hwmon_path, Some(b"/sys/class/drm/card10/device/hwmon/hwmon3".to_vec()));
    assert_eq!(g.name, "AMD GPU (gpu-card10)");
}

#[test]
fn detect_skips_entries_without_device() {
    let mut e = entry(b"card0", "0x1002\n", true);
    e.device_exists = false;
    assert!(SysfsAmdGpu::detect(&[e]).is_none());
    let mut e = entry(b"card0", "0x1002\n", true);
    e.vendor = None;
    assert!(SysfsAmdGpu::detect(&[e]).is_none());
    assert!(SysfsAmdGpu::detect(&[]).is_none());
}

#[test]
fn sysfs_gpu_figures() {
    let g = SysfsAmdGpu::detect(&[entry(b"card0", "0x1002", true)]).unwrap();
    let r = g.read(Some("23\n"), Some("2147483648\n"), Some("17179869184\n"), Some("51000\n"));
    assert_eq!(r.name, "AMD GPU (gpu-card0)");
    assert_eq!(r.usage_percent, 23);
    assert_eq!(r.memory_used_mb, 2048);
    assert_eq!(r.memory_total_mb, 16384);
    assert_eq!(r.temperature_millicelsius, 51000);
    let r = g.read(None, Some("junk"), None, None);
    assert_eq!((r.usage_percent, r.memory_used_mb, r.memory_total_mb, r.temperature_millicelsius), (0, 0, 0, 0));
    let no_hwmon = SysfsAmdGpu { device_path: b"/d".to_vec(), hwmon_path: None, name: "AMD GPU".to_string() };
    assert_eq!(no_hwmon.read(None, None, None, Some("51000\n")).temperature_millicelsius, 0);
}

#[test]
fn backend_choice() {
    let probe = AmdProbe { drm_entries: vec![entry(b"card0", "0x1002\n", true)], video_controllers: vec!["AMD Radeon".to_string()] };
    assert!(matches!(AmdBackend::detect(&probe), AmdBackend::Sysfs(_)));
    let probe = AmdProbe { drm_entries: vec![], video_controllers: vec!["AMD Radeon".to_string()] };
    assert!(matches!(AmdBackend::detect(&probe), AmdBackend::Wmi));
    let probe = AmdProbe { drm_entries: vec![], video_controllers: vec!["Intel".to_string()] };
    assert!(matches!(AmdBackend::detect(&probe), AmdBackend::Unavailable));
    assert!(AmdGpu::init(&probe).is_none());
    let probe = AmdProbe { drm_entries: vec![], video_controllers: vec!["radeon".to_string()] };
    assert!(matches!(AmdGpu::init(&probe), Some(AmdGpu { inner: AmdBackend::Wmi })));
}

fn same(r: &GpuReading, vendor: &str, name: &str, t: &Temperature, usage: u64, used: u64, total: u64) {
    assert_eq!(r.vendor, vendor);
    assert_eq!(r.name, name);
    match (&r.temperature, t) {
        (Temperature::Celsius(a), Temperature::Celsius(b)) => assert_eq!(a, b),
        (Temperature::MilliCelsius(a), Temperature::MilliCelsius(b)) => assert_eq!(a, b),
        _ => panic!("temperature unit differs"),
    }
    assert_eq!((r.usage_percent, r.memory_used_mb, r.memory_total_mb), (usage, used, total));
}

#[test]
fn no_gpu_figures() {
    same(&GpuReading::none(), "none", "N/A", &Temperature::Celsius(0), 0, 0, 0);
}

#[test]
fn nvidia_figures() {
    let d = NvidiaDevice {
        name: Some("NVIDIA GeForce RTX 3080".to_string()),
        temperature_celsius: Some(61),
        utilization_percent: Some(87),
        memory: Some(NvidiaMemory { used_bytes: 3 * 1048576 + 5, total_bytes: 10240 * 1048576 }),
    };
    same(&nvidia_metrics(Some(d)), "nvidia", "NVIDIA GeForce RTX 3080", &Temperature::Celsius(61), 87, 3, 10240);
    let d = NvidiaDevice { name: None, temperature_celsius: None, utilization_percent: None, memory: None };
    same(&nvidia_metrics(Some(d)), "nvidia", "NVIDIA GPU", &Temperature::Celsius(0), 0, 0, 0);
    same(&nvidia_metrics(None), "none", "N/A", &Temperature::Celsius(0), 0, 0, 0);
}

#[test]
fn amd_figures() {
    let info = AmdGpuReading { name: "AMD GPU (Navi 21)".to_string(), temperature_millicelsius: 48500, usage_percent: 12, memory_used_mb: 512, memory_total_mb: 16384 };
    same(&amd_metrics(Some(info)), "amd", "AMD GPU (Navi 21)", &Temperature::MilliCelsius(48500), 12, 512, 16384);
    same(&amd_metrics(None), "none", "N/A", &Temperature::Celsius(0), 0, 0, 0);
}

#[test]
fn handshake_gpu_info() {
    let d = NvidiaDevice { name: None, temperature_celsius: None, utilization_percent: None, memory: Some(NvidiaMemory { used_bytes: 0, total_bytes: 8 * 1048576 }) };
    assert_eq!(handshake_info(GpuIdentity::Nvidia(Some(d))), ("nvidia".to_string(), "NVIDIA GPU".to_string(), 8));
    assert_eq!(handshake_info(GpuIdentity::Nvidia(None)), ("nvidia".to_string(), "NVIDIA GPU".to_string(), 0));
    assert_eq!(handshake_info(GpuIdentity::Amd(None)), ("amd".to_string(), "AMD GPU".to_string(), 0));
    assert_eq!(
        handshake_info(GpuIdentity::Amd(Some(AmdSummary { name: "Radeon".to_string(), memory_total_mb: 4096 }))),
        ("amd".to_string(), "Radeon".to_string(), 4096)
    );
    assert_eq!(handshake_info(GpuIdentity::NoGpu), ("none".to_string(), "N/A".to_string(), 0));
}

#[test]
fn handshake_matches_metrics() {
    let device = || NvidiaDevice {
        name: Some("RTX".to_string()),
        temperature_celsius: Some(50),
        utilization_percent: Some(3),
        memory: Some(NvidiaMemory { used_bytes: 0, total_bytes: 4096 * 1048576 }),
    };
    let m = nvidia_metrics(Some(device()));
    assert_eq!(handshake_info(GpuIdentity::Nvidia(Some(device()))), (m.vendor, m.name, m.memory_total_mb));
    let info = || AmdGpuReading { name: "AMD GPU (x)".to_string(), temperature_millicelsius: 1, usage_percent: 2, memory_used_mb: 3, memory_total_mb: 4 };
    let m = amd_metrics(Some(info()));
    let s = amd_summary(&info());
    assert_eq!(handshake_info(GpuIdentity::Amd(Some(s))), (m.vendor, m.name, m.memory_total_mb));
    let m = GpuReading::none();
    assert_eq!(handshake_info(GpuIdentity::NoGpu), (m.vendor, m.name, m.memory_total_mb));
}

#[test]
fn gpu_choice() {
    assert!(nvidia_ready(Some(1), true));
    assert!(!nvidia_ready(Some(0), true));
    assert!(!nvidia_ready(None, true));
    assert!(!nvidia_ready(Some(2), false));
    assert!(matches!(choose_gpu(true, None), GpuChoice::Nvidia));
    assert!(matches!(choose_gpu(false, None), GpuChoice::NoGpu));
    let amd = AmdGpu { inner: AmdBackend::Wmi };
    assert!(matches!(choose_gpu(false, Some(amd)), GpuChoice::Amd(AmdGpu { inner: AmdBackend::Wmi })));
}

#[test]
fn wmi_summary_of_first_amd_controller() {
    let rows = vec![
        ("Intel UHD".to_string(), Some(1u64 << 30)),
        ("AMD Radeon RX 6600".to_string(), Some(8 * 1048576 + 7)),
        ("Radeon Pro".to_string(), Some(1048576)),
    ];
    let s = wmi_amd_summary(&rows).unwrap();
    assert_eq!((s.name.as_str(), s.memory_total_mb), ("AMD Radeon RX 6600", 8));
    let s = wmi_amd_summary(&[("radeon".to_string(), None)]).unwrap();
    assert_eq!(s.memory_total_mb, 0);
    assert!(wmi_amd_summary(&[("Intel".to_string(), Some(1))]).is_none());
}

fn q(step: AdlStep) -> AdlQuery {
    match step {
        AdlStep::Query(q) => q,
        AdlStep::Done(_) => panic!("the search should go on"),
    }
}

#[test]
fn adl_search_order() {
    let first = adl_first_query(true);
    assert!(matches!(first, AdlQuery::OverdriveN(0)));
    assert!(matches!(adl_first_query(false), AdlQuery::Overdrive5(0)));
    let second = q(adl_next(2, true, first, 0, 0));
    assert!(matches!(second, AdlQuery::Overdrive5(0)));
    let third = q(adl_next(2, true, second, -1, 45000));
    assert!(matches!(third, AdlQuery::OverdriveN(1)));
    let fourth = q(adl_next(2, true, third, 3, 0));
    assert!(matches!(fourth, AdlQuery::Overdrive5(1)));
    assert!(matches!(adl_next(2, true, fourth, 1, 1), AdlStep::Done(None)));
    assert!(matches!(adl_next(2, true, fourth, 0, 47000), AdlStep::Done(Some(47000))));
    assert!(matches!(adl_next(0, false, AdlQuery::Overdrive5(0), 0, 0), AdlStep::Done(None)));
    assert!(matches!(adl_next(3, false, AdlQuery::Overdrive5(0), 0, 0), AdlStep::Query(AdlQuery::Overdrive5(1))));
}
