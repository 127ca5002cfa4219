use vstd::prelude::*;

verus! {

/// Failures surfaced by the tunnel server's components.
#[derive(Debug, Clone, PartialEq, Eq)]
pub enum Error {
    /// File or process I/O failed.
    IoError(String),
    /// The configuration could not be read, parsed or written.
    ConfigError(String),
    /// Key material could not be decoded or had the wrong length.
    CryptoError(String),
    /// An OS command exited with failure or could not be started.
    DeviceError(String),
    /// The transport socket could not be bound or configured.
    NetworkError(String),
    /// No peer has the requested public key.
    NotFound(String),
    /// Any other failure.
    Other(String),
}

pub type Result<T> = core::result::Result<T, Error>;

/// The human-readable form of an error: its kind, then its detail.
pub open spec fn error_text(e: Error) -> Seq<char> {
    match e {
        Error::IoError(m) => "IO Error: "@ + m@,
        Error::ConfigError(m) => "Config Error: "@ + m@,
        Error::CryptoError(m) => "Crypto Error: "@ + m@,
        Error::DeviceError(m) => "Device Error: "@ + m@,
        Error::NetworkError(m) => "Network Error: "@ + m@,
        Error::NotFound(m) => "Not Found: "@ + m@,
        Error::Other(m) => "Error: "@ + m@,
    }
}

fn prefixed(prefix: &str, detail: &String) -> (r: String)
    ensures
        r@ == prefix@ + detail@,
{
    let mut text = prefix.to_owned();
    text.append(detail.as_str());
    text
}

impl Error {
    /// The error as text, for logs and messages.
    pub fn describe(&self) -> (r: String)
        ensures
            r@ == error_text(*self),
    {
        match self {
            Error::IoError(m) => prefixed("IO Error: ", m),
            Error::ConfigError(m) => prefixed("Config Error: ", m),
            Error::CryptoError(m) => prefixed("Crypto Error: ", m),
            Error::DeviceError(m) => prefixed("Device Error: ", m),
            Error::NetworkError(m) => prefixed("Network Error: ", m),
            Error::NotFound(m) => prefixed("Not Found: ", m),
            Error::Other(m) => prefixed("Error: ", m),
        }
    }
}

} // verus!
