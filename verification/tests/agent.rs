use node_agent::agent::{
    agent_metadata, collect_agent_metadata, handle_command, handshake_accepted, AgentAction,
    AgentResponse, CpuIdentity, HandshakeReply, ResponseValue, ServerCommand,
};
use node_agent::cpu::{is_cpu_sensor_label, label_has_cpu_keyword};
use sysinfo::{Disks, System};

fn cmd(command: &str, value: Option<u64>) -> ServerCommand {
    ServerCommand { command: command.to_string(), value }
}

fn is_response(r: &AgentResponse, command: &str) -> bool {
    r.message_type == "response" && r.command == command
}

#[test]
fn responses() {
    let r = AgentResponse::ok("StopAgent");
    assert!(is_response(&r, "StopAgent") && r.value.is_none());
    let r = AgentResponse::with_value("GetInterval", ResponseValue::IntervalSecs(9));
    assert!(is_response(&r, "GetInterval"));
    assert!(matches!(r.value, Some(ResponseValue::IntervalSecs(9))));
}

#[test]
fn set_interval() {
    let (i, a) = handle_command(5, &cmd("SetInterval", Some(30)));
    assert_eq!(i, 30);
    assert!(matches!(a, AgentAction::SetInterval(30)));
    let (i, a) = handle_command(5, &cmd("SetInterval", Some(0)));
    assert_eq!(i, 1);
    assert!(matches!(a, AgentAction::SetInterval(1)));
    let (i, a) = handle_command(5, &cmd("SetInterval", None));
    assert_eq!(i, 5);
    assert!(matches!(a, AgentAction::RejectInterval));
}

#[test]
fn get_interval_after_set_interval() {
    let (i, _) = handle_command(5, &cmd("SetInterval", Some(12)));
    let (j, a) = handle_command(i, &cmd("GetInterval", None));
    assert_eq!(j, 12);
    match a {
        AgentAction::Respond(r) => {
            assert!(is_response(&r, "GetInterval"));
            assert!(matches!(r.value, Some(ResponseValue::IntervalSecs(12))));
        }
        _ => panic!("GetInterval must be answered"),
    }
}

#[test]
fn other_commands() {
    let (i, a) = handle_command(7, &cmd("ForceMetricsUpdate", Some(3)));
    assert_eq!(i, 7);
    assert!(matches!(a, AgentAction::ForceMetricsUpdate(ref r) if is_response(r, "ForceMetricsUpdate") && r.value.is_none()));
    let (_, a) = handle_command(7, &cmd("RestartAgent", None));
    assert!(matches!(a, AgentAction::Restart(ref r) if is_response(r, "RestartAgent")));
    let (_, a) = handle_command(7, &cmd("StopAgent", None));
    assert!(matches!(a, AgentAction::Stop(ref r) if is_response(r, "StopAgent")));
    let (i, a) = handle_command(7, &cmd("Reboot", Some(1)));
    assert_eq!(i, 7);
    match a {
        AgentAction::Respond(r) => {
            assert!(is_response(&r, "UnknownCommand"));
            assert!(matches!(r.value, Some(ResponseValue::Received(ref c)) if c == "Reboot"));
        }
        _ => panic!("an unknown command must be answered"),
    }
    let (i, _) = handle_command(7, &cmd("setinterval", Some(60)));
    assert_eq!(i, 7);
}

#[test]
fn handshake_acceptance() {
    assert!(handshake_accepted(&HandshakeReply::Command(cmd("HandshakeAccepted", None))));
    assert!(!handshake_accepted(&HandshakeReply::Command(cmd("HandshakeRejected", None))));
    assert!(!handshake_accepted(&HandshakeReply::TimedOut));
    assert!(!handshake_accepted(&HandshakeReply::Closed));
    assert!(!handshake_accepted(&HandshakeReply::Unreadable));
}

#[test]
fn metadata_from_facts() {
    let cpu = CpuIdentity { frequency_mhz: 3600, vendor_id: "AuthenticAMD".to_string(), brand: "AMD Ryzen 7".to_string() };
    let m = agent_metadata(
        "node-1", "host", "Linux", Some(8), 16, Some(cpu),
        ("amd".to_string(), "AMD GPU".to_string(), 8192),
        16 * 1024 * 1024 * 1024, 2048 + 1023, &[1024 * 10 + 5, 2048],
    )
    .unwrap();
    assert_eq!(m.message_type, "handshake");
    assert_eq!((m.node_id.as_str(), m.hostname.as_str(), m.os_name.as_str()), ("node-1", "host", "Linux"));
    assert_eq!((m.cpu_cores, m.cpu_threads, m.cpu_frequency_mhz), (8, 16, 3600));
    assert_eq!((m.cpu_brand.as_str(), m.cpu_model.as_str()), ("AuthenticAMD", "AMD Ryzen 7"));
    assert_eq!((m.gpu_vendor.as_str(), m.gpu_name.as_str(), m.gpu_memory_total_mb), ("amd", "AMD GPU", 8192));
    assert_eq!((m.ram_total_kb, m.swap_total_kb, m.disk_total_kb), (16 * 1024 * 1024, 2, 12));
}

#[test]
fn metadata_defaults_and_narrowing() {
    let m = agent_metadata("n", "h", "o", None, 0, None, ("none".to_string(), "N/A".to_string(), 0), 0, 0, &[]).unwrap();
    assert_eq!((m.cpu_cores, m.cpu_threads, m.cpu_frequency_mhz), (0, 0, 0));
    assert_eq!((m.cpu_brand.as_str(), m.cpu_model.as_str()), ("", ""));
    let cpu = CpuIdentity { frequency_mhz: (1u64 << 32) + 5, vendor_id: String::new(), brand: String::new() };
    let m = agent_metadata("n", "h", "o", Some((1usize << 32) + 3), 2, Some(cpu), ("none".to_string(), "N/A".to_string(), 0), 0, 0, &[]).unwrap();
    assert_eq!((m.cpu_cores, m.cpu_frequency_mhz), (3, 5));
    assert!(agent_metadata("n", "h", "o", None, 0, None, ("none".to_string(), "N/A".to_string(), 0), 0, 0, &[u64::MAX, u64::MAX, u64::MAX, u64::MAX]).is_some());
}

#[test]
fn metadata_of_this_machine() {
    let mut system = System::new_all();
    system.refresh_memory();
    let disks = Disks::new_with_refreshed_list();
    let m = collect_agent_metadata("id", "host", "os", Some(4), &system, &disks, ("none".to_string(), "N/A".to_string(), 0)).unwrap();
    assert_eq!(m.ram_total_kb, system.total_memory() / 1024);
    assert_eq!(m.swap_total_kb, system.total_swap() / 1024);
    assert_eq!(m.cpu_threads as usize, system.cpus().len());
    let disk_kb: u64 = disks.list().iter().map(|d| d.total_space() / 1024).sum();
    assert_eq!(m.disk_total_kb, disk_kb);
    if let Some(c) = system.cpus().first() {
        assert_eq!(m.cpu_brand, c.vendor_id());
        assert_eq!(m.cpu_model, c.brand());
    }
    assert_eq!(m.cpu_cores, 4);
}

#[test]
fn cpu_sensor_labels() {
    assert!(is_cpu_sensor_label("CPU Package"));
    assert!(is_cpu_sensor_label("k10temp Tctl"));
    assert!(is_cpu_sensor_label("coretemp Core 0"));
    assert!(is_cpu_sensor_label("amdgpu edge tccd1"));
    assert!(!is_cpu_sensor_label("nvme Composite"));
    assert!(!is_cpu_sensor_label("acpitz temp1"));
    assert!(label_has_cpu_keyword("package id 0"));
    assert!(!label_has_cpu_keyword("PACKAGE"));
}
