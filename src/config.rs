use vstd::prelude::*;

verus! {

/// One remote peer as written in the server configuration.
#[derive(Debug, Clone, PartialEq, Eq)]
pub struct PeerConfig {
    /// Encoded public key that identifies the peer.
    pub public_key: String,
    /// CIDR range routed to the peer.
    pub allowed_ips: String,
    /// Optional `host:port` the peer is reached at.
    pub endpoint: Option<String>,
    /// Optional pre-shared key.
    pub psk: Option<String>,
}

/// A copy of an optional text.
pub fn copy_optional_text(s: &Option<String>) -> (r: Option<String>)
    ensures
        r == *s,
{
    match s {
        Some(t) => Some(t.clone()),
        None => None,
    }
}

impl PeerConfig {
    /// A field-for-field copy.
    pub fn duplicate(&self) -> (r: PeerConfig)
        ensures
            r == *self,
    {
        PeerConfig {
            public_key: self.public_key.clone(),
            allowed_ips: self.allowed_ips.clone(),
            endpoint: copy_optional_text(&self.endpoint),
            psk: copy_optional_text(&self.psk),
        }
    }
}

/// The local tunnel interface.
#[derive(Debug, Clone, PartialEq, Eq)]
pub struct InterfaceConfig {
    /// OS device name.
    pub name: String,
    /// Encoded private key of the interface.
    pub private_key: String,
    /// Local address in CIDR notation.
    pub address: String,
    /// UDP port the server listens on.
    pub listen_port: u16,
}

/// Server configuration: one interface and its peers, in file order.
#[derive(Debug, Clone, PartialEq, Eq)]
pub struct ServerConfig {
    pub interface: InterfaceConfig,
    pub peers: Vec<PeerConfig>,
}

/// Flat client configuration.
#[derive(Debug, Clone, PartialEq, Eq)]
pub struct ClientConfig {
    pub private_key: String,
    pub address: String,
    pub server_public_key: String,
    pub server_endpoint: String,
    pub psk: Option<String>,
    pub dns: Option<Vec<String>>,
}

/// The example server configuration file: one interface holding
/// `private_key`, and a placeholder peer to be edited.
pub open spec fn config_template_text(private_key: Seq<char>) -> Seq<char> {
    "# RustyTunnel Server Configuration\n\n[interface]\nname = \"wg0\"\nprivate_key = \""@ + private_key + "\"\naddress = \"10.8.0.1/24\"\nlisten_port = 51820\n\n# Example peer configuration\n[[peers]]\npublic_key = \"REPLACE_WITH_CLIENT_PUBLIC_KEY\"\nallowed_ips = \"10.8.0.2/32\"\nendpoint = \"client.example.com:51820\"  # Optional\n\n# Add more peers as needed\n# [[peers]]\n# public_key = \"ANOTHER_CLIENT_PUBLIC_KEY\"\n# allowed_ips = \"10.8.0.3/32\"\n"@
}

/// The text of an example server configuration with the given private key.
pub fn config_template(private_key: &str) -> (r: String)
    ensures
        r@ == config_template_text(private_key@),
{
    let mut text = "# RustyTunnel Server Configuration\n\n[interface]\nname = \"wg0\"\nprivate_key = \"".to_owned();
    text.append(private_key);
    text.append("\"\naddress = \"10.8.0.1/24\"\nlisten_port = 51820\n\n# Example peer configuration\n[[peers]]\npublic_key = \"REPLACE_WITH_CLIENT_PUBLIC_KEY\"\nallowed_ips = \"10.8.0.2/32\"\nendpoint = \"client.example.com:51820\"  # Optional\n\n# Add more peers as needed\n# [[peers]]\n# public_key = \"ANOTHER_CLIENT_PUBLIC_KEY\"\n# allowed_ips = \"10.8.0.3/32\"\n");
    text
}

} // verus!
