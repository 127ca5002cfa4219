use vstd::prelude::*;
use crate::config::{copy_optional_text, PeerConfig};
use crate::endpoint::{parse_socket_address, socket_address_of, Endpoint};

verus! {

/// Connection state of a peer.
#[derive(Debug, Clone, Copy, PartialEq, Eq, Structural)]
pub enum PeerStatus {
    Disconnected,
    Handshaking,
    Connected,
}

/// Runtime state of one remote peer.
#[derive(Debug, Clone)]
pub struct Peer {
    pub public_key: String,
    pub allowed_ips: String,
    pub endpoint: Option<Endpoint>,
    pub psk: Option<String>,
    pub status: PeerStatus,
    /// Unix seconds of the last move into `Connected`; 0 until then.
    pub last_handshake: u64,
    pub bytes_received: u64,
    pub bytes_sent: u64,
}

/// The endpoint a peer's configured text resolves to: text that is not a
/// socket address (a host name, say) gives none.
pub open spec fn resolved_endpoint(text: Option<String>) -> Option<Endpoint> {
    match text {
        Some(t) => socket_address_of(t@),
        None => None,
    }
}

/// `p` is the fresh peer built from `c`.
pub open spec fn fresh_peer_of(p: Peer, c: PeerConfig) -> bool {
    &&& p.public_key@ == c.public_key@
    &&& p.allowed_ips@ == c.allowed_ips@
    &&& p.endpoint == resolved_endpoint(c.endpoint)
    &&& p.psk == c.psk
    &&& p.status == PeerStatus::Disconnected
    &&& p.last_handshake == 0
    &&& p.bytes_received == 0
    &&& p.bytes_sent == 0
}

/// The peer after a status change at time `now`: the handshake time moves
/// only on a change into `Connected`.
pub open spec fn status_changed(before: Peer, after: Peer, status: PeerStatus, now: u64) -> bool {
    &&& after.status == status
    &&& after.last_handshake == (if status == PeerStatus::Connected { now } else { before.last_handshake })
    &&& after.public_key == before.public_key
    &&& after.allowed_ips == before.allowed_ips
    &&& after.endpoint == before.endpoint
    &&& after.psk == before.psk
    &&& after.bytes_received == before.bytes_received
    &&& after.bytes_sent == before.bytes_sent
}

impl Peer {
    /// Builds the runtime peer for one configured peer.
    pub fn from_config(config: PeerConfig) -> (r: Result<Peer, crate::error::Error>)
        ensures
            r matches Ok(p) && fresh_peer_of(p, config),
    {
        let endpoint = match &config.endpoint {
            Some(text) => parse_socket_address(text.as_str()),
            None => None,
        };
        Ok(Peer {
            public_key: config.public_key,
            allowed_ips: config.allowed_ips,
            endpoint,
            psk: config.psk,
            status: PeerStatus::Disconnected,
            last_handshake: 0,
            bytes_received: 0,
            bytes_sent: 0,
        })
    }

    /// Sets the status as of the unix second `now`.
    pub fn set_status_at(&mut self, status: PeerStatus, now: u64)
        ensures
            status_changed(*old(self), *final(self), status, now),
    {
        self.status = status;
        if status == PeerStatus::Connected {
            self.last_handshake = now;
        }
    }

    /// Sets the status, stamping the current time on a move into `Connected`.
    pub fn set_status(&mut self, status: PeerStatus)
        ensures
            exists|now: u64| status_changed(*old(self), *final(self), status, now),
    {
        let now = current_timestamp();
        self.set_status_at(status, now);
    }

    /// A field-for-field copy.
    pub fn duplicate(&self) -> (r: Peer)
        ensures
            r == *self,
    {
        Peer {
            public_key: self.public_key.clone(),
            allowed_ips: self.allowed_ips.clone(),
            endpoint: self.endpoint,
            psk: copy_optional_text(&self.psk),
            status: self.status,
            last_handshake: self.last_handshake,
            bytes_received: self.bytes_received,
            bytes_sent: self.bytes_sent,
        }
    }
}

/// A fresh peer that connects at `connected_at` and later disconnects keeps
/// `connected_at` as its handshake time; before connecting it has none.
pub proof fn lemma_handshake_survives_disconnect(
    config: PeerConfig,
    fresh: Peer,
    connected: Peer,
    disconnected: Peer,
    connected_at: u64,
    disconnected_at: u64,
)
    requires
        fresh_peer_of(fresh, config),
        status_changed(fresh, connected, PeerStatus::Connected, connected_at),
        status_changed(connected, disconnected, PeerStatus::Disconnected, disconnected_at),
    ensures
        fresh.last_handshake == 0,
        connected.last_handshake == connected_at,
        disconnected.status == PeerStatus::Disconnected,
        disconnected.last_handshake == connected_at,
        disconnected.bytes_received == 0,
        disconnected.bytes_sent == 0,
{
}

/// Relies on std's `SystemTime::now`: whole seconds since the unix epoch,
/// 0 where the clock stands before it. Nothing is promised of the value.
#[verifier::external_body]
pub fn current_timestamp() -> (r: u64) {
    std::time::SystemTime::now()
        .duration_since(std::time::UNIX_EPOCH)
        .unwrap_or_default()
        .as_secs()
}

} // verus!
