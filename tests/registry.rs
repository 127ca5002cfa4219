use rusty_tunnel::config::{InterfaceConfig, PeerConfig, ServerConfig};
use rusty_tunnel::endpoint::Endpoint;
use rusty_tunnel::error::Error;
use rusty_tunnel::peer::{Peer, PeerStatus};
use rusty_tunnel::server::VpnServer;

fn peer_config(key: &str, ips: &str) -> PeerConfig {
    PeerConfig {
        public_key: key.to_string(),
        allowed_ips: ips.to_string(),
        endpoint: None,
        psk: None,
    }
}

fn server_with(peers: Vec<PeerConfig>) -> VpnServer {
    let config = ServerConfig {
        interface: InterfaceConfig {
            name: "wg0".to_string(),
            private_key: "test_key".to_string(),
            address: "10.8.0.1/24".to_string(),
            listen_port: 51820,
        },
        peers,
    };
    VpnServer::new(config).unwrap()
}

#[test]
fn test_peer_creation() {
    let config = PeerConfig {
        public_key: "test_key".to_string(),
        allowed_ips: "10.8.0.2/32".to_string(),
        endpoint: None,
        psk: None,
    };

    let peer = Peer::from_config(config).unwrap();
    assert_eq!(peer.status, PeerStatus::Disconnected);
    assert_eq!(peer.bytes_received, 0);
    assert_eq!(peer.bytes_sent, 0);
}

#[test]
fn test_peer_status_update() {
    let config = PeerConfig {
        public_key: "test_key".to_string(),
        allowed_ips: "10.8.0.2/32".to_string(),
        endpoint: None,
        psk: None,
    };

    let mut peer = Peer::from_config(config).unwrap();
    peer.set_status(PeerStatus::Connected);
    assert_eq!(peer.status, PeerStatus::Connected);
    assert!(peer.last_handshake > 0);
}

#[test]
fn test_server_creation() {
    let server = server_with(vec![]);
    assert_eq!(server.device.name, "wg0");
}

#[test]
fn peer_lifecycle_keeps_handshake_time() {
    let mut peer = Peer::from_config(peer_config("test_key", "10.8.0.2/32")).unwrap();
    assert_eq!(peer.last_handshake, 0);
    let before = rusty_tunnel::peer::current_timestamp();
    peer.set_status(PeerStatus::Connected);
    let after = rusty_tunnel::peer::current_timestamp();
    assert!(peer.last_handshake >= before && peer.last_handshake <= after);
    let stamp = peer.last_handshake;
    peer.set_status_at(PeerStatus::Disconnected, stamp + 100);
    assert_eq!(peer.status, PeerStatus::Disconnected);
    assert_eq!(peer.last_handshake, stamp);
    peer.set_status_at(PeerStatus::Handshaking, 5);
    assert_eq!(peer.last_handshake, stamp);
    peer.set_status_at(PeerStatus::Connected, 1_700_000_000);
    assert_eq!(peer.last_handshake, 1_700_000_000);
}

fn endpoint_of(text: &str) -> Option<Endpoint> {
    let mut config = peer_config("k", "10.8.0.2/32");
    config.endpoint = Some(text.to_string());
    Peer::from_config(config).unwrap().endpoint
}

#[test]
fn peer_endpoint_is_resolved_or_dropped() {
    let mut config = peer_config("k", "10.8.0.2/32");
    config.endpoint = Some("192.168.1.10:51820".to_string());
    config.psk = Some("psk".to_string());
    let peer = Peer::from_config(config).unwrap();
    assert_eq!(peer.endpoint, Some(Endpoint::V4 { ip: [192, 168, 1, 10], port: 51820 }));
    assert_eq!(peer.psk, Some("psk".to_string()));
    assert_eq!(endpoint_of("client.example.com:51820"), None);
}

#[test]
fn ipv6_endpoints_are_resolved() {
    assert_eq!(
        endpoint_of("[::1]:51820"),
        Some(Endpoint::V6 { ip: [0, 0, 0, 0, 0, 0, 0, 1], port: 51820, flowinfo: 0, scope_id: 0 })
    );
    assert_eq!(
        endpoint_of("[2001:db8::8:800:200c:417a]:443"),
        Some(Endpoint::V6 {
            ip: [0x2001, 0xdb8, 0, 0, 0x8, 0x800, 0x200c, 0x417a],
            port: 443,
            flowinfo: 0,
            scope_id: 0
        })
    );
    assert_eq!(endpoint_of("::1:51820"), None);
}

#[test]
fn endpoint_parsing_edges() {
    assert_eq!(endpoint_of("0.0.0.0:0"), Some(Endpoint::V4 { ip: [0, 0, 0, 0], port: 0 }));
    assert_eq!(
        endpoint_of("255.255.255.255:65535"),
        Some(Endpoint::V4 { ip: [255, 255, 255, 255], port: 65535 })
    );
    assert_eq!(endpoint_of("256.0.0.1:80"), None);
    assert_eq!(endpoint_of("1.2.3.4:65536"), None);
    assert_eq!(endpoint_of("1.2.3:80"), None);
    assert_eq!(endpoint_of("1.2.3.4"), None);
    assert_eq!(endpoint_of(""), None);
}

#[test]
fn stats_aggregate_counters() {
    let mut server = server_with(vec![
        peer_config("key_aaaaaaaa", "10.8.0.2/32"),
        peer_config("key_bbbbbbbb", "10.8.0.3/32"),
        peer_config("key_cccccccc", "10.8.0.4/32"),
    ]);
    server.peers[0].bytes_received = 3;
    server.peers[1].bytes_received = 5;
    server.peers[2].bytes_received = 0;
    server.peers[0].bytes_sent = 1;
    server.peers[1].bytes_sent = 0;
    server.peers[2].bytes_sent = 2;
    server.update_peer_status("key_bbbbbbbb", PeerStatus::Connected).unwrap();
    let stats = server.get_stats();
    assert_eq!(stats.total_peers, 3);
    assert_eq!(stats.connected_peers, 1);
    assert_eq!(stats.total_bytes_received, 8);
    assert_eq!(stats.total_bytes_sent, 3);
}

#[test]
fn stats_of_empty_registry() {
    let server = server_with(vec![]);
    let stats = server.get_stats();
    assert_eq!(stats.total_peers, 0);
    assert_eq!(stats.connected_peers, 0);
    assert_eq!(stats.total_bytes_received, 0);
    assert_eq!(stats.total_bytes_sent, 0);
}

#[test]
fn stats_saturate_at_maximum() {
    let mut server = server_with(vec![peer_config("a", "10.8.0.2/32"), peer_config("b", "10.8.0.3/32")]);
    server.peers[0].bytes_received = u64::MAX;
    server.peers[1].bytes_received = 7;
    let stats = server.get_stats();
    assert_eq!(stats.total_bytes_received, u64::MAX);
}

#[test]
fn update_of_unknown_peer_is_not_found() {
    let mut server = server_with(vec![peer_config("key_a", "10.8.0.2/32"), peer_config("key_b", "10.8.0.3/32")]);
    server.update_peer_status_at("key_a", PeerStatus::Connected, 42).unwrap();
    let r = server.update_peer_status("missing", PeerStatus::Connected);
    match r {
        Err(Error::NotFound(message)) => assert_eq!(message, "Peer not found: missing"),
        other => panic!("unexpected result {:?}", other),
    }
    let peers = server.get_peers();
    assert_eq!(peers.len(), 2);
    assert_eq!(peers[0].status, PeerStatus::Connected);
    assert_eq!(peers[0].last_handshake, 42);
    assert_eq!(peers[1].status, PeerStatus::Disconnected);
    assert_eq!(peers[1].last_handshake, 0);
}

#[test]
fn duplicate_keys_update_only_the_first() {
    let mut server = server_with(vec![peer_config("same", "10.8.0.2/32"), peer_config("same", "10.8.0.3/32")]);
    server.update_peer_status_at("same", PeerStatus::Handshaking, 9).unwrap();
    assert_eq!(server.peers[0].status, PeerStatus::Handshaking);
    assert_eq!(server.peers[1].status, PeerStatus::Disconnected);
    assert_eq!(server.peers[0].last_handshake, 0);
}

#[test]
fn get_peers_copies_in_order() {
    let server = server_with(vec![peer_config("key_a", "10.8.0.2/32"), peer_config("key_b", "10.8.0.3/32")]);
    let peers = server.get_peers();
    assert_eq!(peers[0].public_key, "key_a");
    assert_eq!(peers[1].allowed_ips, "10.8.0.3/32");
}
