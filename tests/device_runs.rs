use rusty_tunnel::config::{InterfaceConfig, PeerConfig, ServerConfig};
use rusty_tunnel::device::{command_outcome, launch_failure, DeviceCommand, TunDevice};
use rusty_tunnel::error::Error;
use rusty_tunnel::server::{DeviceRun, VpnServer};

fn words(c: &DeviceCommand) -> String {
    let mut out = c.program.clone();
    for a in &c.args {
        out.push(' ');
        out.push_str(a);
    }
    out
}

fn server_with_routes(routes: &[&str]) -> VpnServer {
    let peers = routes
        .iter()
        .enumerate()
        .map(|(i, r)| PeerConfig {
            public_key: format!("peer_key_{}", i),
            allowed_ips: r.to_string(),
            endpoint: None,
            psk: None,
        })
        .collect();
    VpnServer::new(ServerConfig {
        interface: InterfaceConfig {
            name: "wg0".to_string(),
            private_key: "test_key".to_string(),
            address: "10.8.0.1/24".to_string(),
            listen_port: 51820,
        },
        peers,
    })
    .unwrap()
}

/// Drives a run the way a command runner would, failing the commands whose
/// text is in `failing`; returns the commands issued and the run's result.
fn drive(mut run: DeviceRun, failing: &[&str]) -> (Vec<String>, Result<(), Error>) {
    let mut issued = Vec::new();
    while let Some(cmd) = run.next_command() {
        let text = words(&cmd);
        let outcome = command_outcome(&cmd, !failing.contains(&text.as_str()), "boom");
        issued.push(text);
        run.record(outcome);
    }
    (issued, run.finish())
}

#[test]
fn test_tun_device_creation() {
    let device = TunDevice::new("wg0", "10.8.0.1/24");
    assert_eq!(device.name, "wg0");
    assert_eq!(device.address, "10.8.0.1/24");
}

#[test]
fn device_commands_are_exact() {
    let device = TunDevice::new("wg0", "10.8.0.1/24");
    assert_eq!(words(&device.up()), "ip link set dev wg0 up");
    assert_eq!(words(&device.down()), "ip link set dev wg0 down");
    assert_eq!(words(&device.set_address()), "ip addr add 10.8.0.1/24 dev wg0");
    assert_eq!(words(&device.remove_address()), "ip addr del 10.8.0.1/24 dev wg0");
    assert_eq!(words(&device.add_route("10.8.0.2/32")), "ip route add 10.8.0.2/32 dev wg0");
    assert_eq!(words(&device.remove_route("10.8.0.2/32")), "ip route del 10.8.0.2/32 dev wg0");
    assert_eq!(words(&TunDevice::enable_forwarding()), "sysctl -w net.ipv4.ip_forward=1");
    assert_eq!(words(&TunDevice::disable_forwarding()), "sysctl -w net.ipv4.ip_forward=0");
}

#[test]
fn command_outcomes_map_to_device_errors() {
    let device = TunDevice::new("wg0", "10.8.0.1/24");
    let up = device.up();
    assert_eq!(command_outcome(&up, true, "ignored"), Ok(()));
    assert_eq!(
        command_outcome(&up, false, "RTNETLINK answers: File exists"),
        Err(Error::DeviceError("Command failed: RTNETLINK answers: File exists".to_string()))
    );
    assert_eq!(
        launch_failure(&up, "not found"),
        Error::DeviceError("Failed to run command: not found".to_string())
    );
}

#[test]
fn sysctl_failures_are_reported_as_sysctl() {
    let enable = TunDevice::enable_forwarding();
    let disable = TunDevice::disable_forwarding();
    assert_eq!(command_outcome(&enable, true, ""), Ok(()));
    assert_eq!(
        command_outcome(&enable, false, "permission denied"),
        Err(Error::DeviceError("sysctl failed: permission denied".to_string()))
    );
    assert_eq!(
        command_outcome(&disable, false, "read-only"),
        Err(Error::DeviceError("sysctl failed: read-only".to_string()))
    );
    assert_eq!(
        launch_failure(&disable, "No such file or directory"),
        Error::DeviceError("Failed to run sysctl: No such file or directory".to_string())
    );
}

#[test]
fn start_runs_in_order() {
    let server = server_with_routes(&["10.8.0.2/32", "10.8.0.3/32", "10.8.0.4/32"]);
    let (issued, result) = drive(server.start_run(), &[]);
    assert_eq!(
        issued,
        vec![
            "ip addr add 10.8.0.1/24 dev wg0",
            "ip link set dev wg0 up",
            "sysctl -w net.ipv4.ip_forward=1",
            "ip route add 10.8.0.2/32 dev wg0",
            "ip route add 10.8.0.3/32 dev wg0",
            "ip route add 10.8.0.4/32 dev wg0",
        ]
    );
    assert_eq!(result, Ok(()));
}

#[test]
fn start_stops_at_first_failing_route() {
    let server = server_with_routes(&["10.8.0.2/32", "10.8.0.3/32", "10.8.0.4/32"]);
    let (issued, result) = drive(server.start_run(), &["ip route add 10.8.0.3/32 dev wg0"]);
    assert_eq!(issued.len(), 5);
    assert_eq!(issued[4], "ip route add 10.8.0.3/32 dev wg0");
    assert_eq!(result, Err(Error::DeviceError("Command failed: boom".to_string())));
}

#[test]
fn start_stops_when_address_fails() {
    let server = server_with_routes(&["10.8.0.2/32"]);
    let (issued, result) = drive(server.start_run(), &["ip addr add 10.8.0.1/24 dev wg0"]);
    assert_eq!(issued, vec!["ip addr add 10.8.0.1/24 dev wg0"]);
    assert!(matches!(result, Err(Error::DeviceError(_))));
}

#[test]
fn stop_continues_past_failures() {
    let server = server_with_routes(&["10.8.0.2/32", "10.8.0.3/32"]);
    let mut run = server.stop_run();
    let mut issued = Vec::new();
    while let Some(cmd) = run.next_command() {
        let text = words(&cmd);
        let failed = text == "ip link set dev wg0 down";
        issued.push(text);
        run.record(command_outcome(&cmd, !failed, "device busy"));
    }
    assert_eq!(
        issued,
        vec![
            "ip route del 10.8.0.2/32 dev wg0",
            "ip route del 10.8.0.3/32 dev wg0",
            "ip link set dev wg0 down",
            "ip addr del 10.8.0.1/24 dev wg0",
        ]
    );
    assert_eq!(run.warnings.len(), 1);
    assert_eq!(run.finish(), Ok(()));
}

#[test]
fn stop_succeeds_when_everything_fails() {
    let server = server_with_routes(&["10.8.0.2/32"]);
    let all = [
        "ip route del 10.8.0.2/32 dev wg0",
        "ip link set dev wg0 down",
        "ip addr del 10.8.0.1/24 dev wg0",
    ];
    let (issued, result) = drive(server.stop_run(), &all);
    assert_eq!(issued.len(), 3);
    assert_eq!(result, Ok(()));
}

#[test]
fn errors_describe_themselves() {
    assert_eq!(Error::DeviceError("x".to_string()).describe(), "Device Error: x");
    assert_eq!(Error::NotFound("Peer not found: k".to_string()).describe(), "Not Found: Peer not found: k");
    assert_eq!(Error::ConfigError("bad".to_string()).describe(), "Config Error: bad");
    assert_eq!(Error::Other("o".to_string()).describe(), "Error: o");
}
