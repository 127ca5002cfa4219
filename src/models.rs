use vstd::prelude::*;
use crate::config::copy_optional_text;

verus! {

#[derive(Debug, Clone)]
pub struct LoginRequest {
    pub username: String,
    pub password: String,
}

#[derive(Debug, Clone)]
pub struct LoginResponse {
    pub token: String,
    pub user: UserInfo,
}

#[derive(Debug, Clone)]
pub struct UserInfo {
    pub id: String,
    pub username: String,
    pub email: String,
}

impl UserInfo {
    /// A field-for-field copy.
    pub fn duplicate(&self) -> (r: UserInfo)
        ensures
            r == *self,
    {
        UserInfo { id: self.id.clone(), username: self.username.clone(), email: self.email.clone() }
    }
}

#[derive(Debug, Clone)]
pub struct ConnectionConfig {
    pub id: String,
    pub name: String,
    pub node_id: String,
    pub protocol: String,
    pub auto_connect: bool,
    pub kill_switch: bool,
    pub dns_leak_protection: bool,
}

/// Where the client's tunnel connection stands.
#[derive(Debug, Clone, Copy, PartialEq, Eq, Structural)]
pub enum ConnectionStatus {
    Disconnected,
    Connecting,
    Connected,
    Disconnecting,
    Error,
}

/// The client's view of its connection; speeds in bytes per second, totals
/// in bytes, connection time in seconds.
#[derive(Debug, Clone)]
pub struct ConnectionStats {
    pub status: ConnectionStatus,
    pub connected_node: Option<String>,
    pub upload_speed: u64,
    pub download_speed: u64,
    pub total_uploaded: u64,
    pub total_downloaded: u64,
    pub connection_time: u64,
    pub ip_address: Option<String>,
}

impl ConnectionStats {
    /// A field-for-field copy.
    pub fn duplicate(&self) -> (r: ConnectionStats)
        ensures
            r == *self,
    {
        ConnectionStats {
            status: self.status,
            connected_node: copy_optional_text(&self.connected_node),
            upload_speed: self.upload_speed,
            download_speed: self.download_speed,
            total_uploaded: self.total_uploaded,
            total_downloaded: self.total_downloaded,
            connection_time: self.connection_time,
            ip_address: copy_optional_text(&self.ip_address),
        }
    }

    /// Disconnected, no node, every counter zero.
    pub open spec fn is_idle(&self) -> bool {
        &&& self.status == ConnectionStatus::Disconnected
        &&& self.connected_node is None
        &&& self.upload_speed == 0
        &&& self.download_speed == 0
        &&& self.total_uploaded == 0
        &&& self.total_downloaded == 0
        &&& self.connection_time == 0
        &&& self.ip_address is None
    }
}

impl Default for ConnectionStats {
    fn default() -> (r: ConnectionStats)
        ensures
            r.is_idle(),
    {
        ConnectionStats {
            status: ConnectionStatus::Disconnected,
            connected_node: None,
            upload_speed: 0,
            download_speed: 0,
            total_uploaded: 0,
            total_downloaded: 0,
            connection_time: 0,
            ip_address: None,
        }
    }
}

#[derive(Debug, Clone)]
pub struct AppSettings {
    pub theme: String,
    pub language: String,
    pub auto_start: bool,
    pub minimize_to_tray: bool,
    pub default_protocol: String,
    pub dns_servers: Vec<String>,
}

impl AppSettings {
    /// The settings a new installation starts with.
    pub open spec fn is_initial(&self) -> bool {
        &&& self.theme@ == "dark"@
        &&& self.language@ == "en"@
        &&& !self.auto_start
        &&& self.minimize_to_tray
        &&& self.default_protocol@ == "WireGuard"@
        &&& self.dns_servers@.len() == 2
        &&& self.dns_servers@[0]@ == "8.8.8.8"@
        &&& self.dns_servers@[1]@ == "8.8.4.4"@
    }
}

impl Default for AppSettings {
    fn default() -> (r: AppSettings)
        ensures
            r.is_initial(),
    {
        let mut dns_servers: Vec<String> = Vec::new();
        dns_servers.push("8.8.8.8".to_owned());
        dns_servers.push("8.8.4.4".to_owned());
        AppSettings {
            theme: "dark".to_owned(),
            language: "en".to_owned(),
            auto_start: false,
            minimize_to_tray: true,
            default_protocol: "WireGuard".to_owned(),
            dns_servers,
        }
    }
}

} // verus!
