//! The error taxonomy of the synchronisation engine and the process exit codes.
use crate::text::{decimal_of, decimal_text};
use vstd::prelude::*;
use vstd::string::StringExecFns;

verus! {

/// How the process ends.
#[derive(Debug, Clone, Copy, PartialEq, Eq, Structural)]
pub enum ExitCode {
    Success,
    Transient,
    Config,
    Unsupported,
}

pub open spec fn exit_status(c: ExitCode) -> i32 {
    match c {
        ExitCode::Success => 0,
        ExitCode::Transient => 1,
        ExitCode::Config => 2,
        ExitCode::Unsupported => 3,
    }
}

impl ExitCode {
    /// The process status for this exit code.
    pub fn status(self) -> (r: i32)
        ensures
            r == exit_status(self),
    {
        match self {
            ExitCode::Success => 0,
            ExitCode::Transient => 1,
            ExitCode::Config => 2,
            ExitCode::Unsupported => 3,
        }
    }
}

/// Configuration is missing or invalid: fatal, never retried.
#[derive(Debug, Clone)]
pub enum ConfigError {
    Io(String),
    Toml(String),
    MissingConfig,
    MissingQbPassword,
    ForwardedPortUnavailable(String),
    /// Gateway discovery is switched off and no gateway is configured.
    MissingGateway,
    /// The configured gateway is no IP address.
    InvalidGateway(String),
    /// The torrent client's configured address is no URL.
    InvalidUrl(String),
}

/// The torrent client's Web API refused or answered unexpectedly.
#[derive(Debug, Clone)]
pub enum QbitError {
    Auth(String),
    UnexpectedResponse { status: u16, message: String },
    Deserialize(String),
}

/// A port-mapping negotiation failed.
#[derive(Debug, Clone)]
pub enum PortMapError {
    Pcp(String),
    PcpNotSupported(String),
    NatPmp(String),
    /// Both protocols were tried and both failed.
    Exhausted { pcp: String, natpmp: String },
}

/// Something this platform cannot do.
#[derive(Debug, Clone)]
pub struct UnsupportedError(pub String);

impl UnsupportedError {
    pub fn new(message: &str) -> (r: Self)
        ensures
            r.0@ == message@,
    {
        UnsupportedError(String::from_str(message))
    }
}

/// Every failure that a synchronisation run can end in.
#[derive(Debug, Clone)]
pub enum SyncError {
    Config(ConfigError),
    Unsupported(UnsupportedError),
    PortMap(PortMapError),
    Qbit(QbitError),
    Other(String),
}

pub open spec fn exit_code_for(err: SyncError) -> ExitCode {
    match err {
        SyncError::Config(_) => ExitCode::Config,
        SyncError::Unsupported(_) => ExitCode::Unsupported,
        SyncError::PortMap(PortMapError::PcpNotSupported(_)) => ExitCode::Unsupported,
        _ => ExitCode::Transient,
    }
}

/// The exit code that a run ending in `err` reports.
pub fn classify_error(err: &SyncError) -> (r: ExitCode)
    ensures
        r == exit_code_for(*err),
{
    match err {
        SyncError::Config(_) => ExitCode::Config,
        SyncError::Unsupported(_) => ExitCode::Unsupported,
        SyncError::PortMap(PortMapError::PcpNotSupported(_)) => ExitCode::Unsupported,
        _ => ExitCode::Transient,
    }
}

pub open spec fn config_error_text(e: ConfigError) -> Seq<char> {
    match e {
        ConfigError::Io(m) => "failed to read config file: "@ + m@,
        ConfigError::Toml(m) => "failed to parse config file: "@ + m@,
        ConfigError::MissingConfig =>
            "no configuration file found; pass --config or create one in a standard location"@,
        ConfigError::MissingQbPassword =>
            "missing qbittorrent password (set in config or QB_PORT_SYNC_QB_PASSWORD)"@,
        ConfigError::ForwardedPortUnavailable(m) => "forwarded port path unavailable: "@ + m@,
        ConfigError::MissingGateway => "gateway discovery disabled and no gateway configured"@,
        ConfigError::InvalidGateway(m) => "invalid configured gateway address: "@ + m@,
        ConfigError::InvalidUrl(m) => "invalid qbittorrent base url: "@ + m@,
    }
}

pub open spec fn qbit_error_text(e: QbitError) -> Seq<char> {
    match e {
        QbitError::Auth(m) => "authentication failed: "@ + m@,
        QbitError::UnexpectedResponse { status, message } =>
            "unexpected response status: "@ + decimal_of(status as nat) + " "@ + message@,
        QbitError::Deserialize(m) => "failed to deserialize qBittorrent preferences: "@ + m@,
    }
}

pub open spec fn port_map_error_text(e: PortMapError) -> Seq<char> {
    match e {
        PortMapError::Pcp(m) => "pcp mapping failed: "@ + m@,
        PortMapError::PcpNotSupported(m) => "pcp not supported: "@ + m@,
        PortMapError::NatPmp(m) => "nat-pmp mapping failed: "@ + m@,
        PortMapError::Exhausted { pcp, natpmp } =>
            "pcp mapping failed: "@ + pcp@ + "; nat-pmp mapping failed: "@ + natpmp@,
    }
}

pub open spec fn sync_error_text(e: SyncError) -> Seq<char> {
    match e {
        SyncError::Config(c) => config_error_text(c),
        SyncError::Unsupported(u) => u.0@,
        SyncError::PortMap(p) => port_map_error_text(p),
        SyncError::Qbit(q) => qbit_error_text(q),
        SyncError::Other(m) => m@,
    }
}

fn prefixed(prefix: &str, m: &String) -> (r: String)
    ensures
        r@ == prefix@ + m@,
{
    String::from_str(prefix).concat(m.as_str())
}

impl ConfigError {
    /// A one-line human-readable description.
    pub fn describe(&self) -> (r: String)
        ensures
            r@ == config_error_text(*self),
    {
        match self {
            ConfigError::Io(m) => prefixed("failed to read config file: ", m),
            ConfigError::Toml(m) => prefixed("failed to parse config file: ", m),
            ConfigError::MissingConfig => String::from_str(
                "no configuration file found; pass --config or create one in a standard location",
            ),
            ConfigError::MissingQbPassword => String::from_str(
                "missing qbittorrent password (set in config or QB_PORT_SYNC_QB_PASSWORD)",
            ),
            ConfigError::ForwardedPortUnavailable(m) => prefixed(
                "forwarded port path unavailable: ",
                m,
            ),
            ConfigError::MissingGateway => String::from_str(
                "gateway discovery disabled and no gateway configured",
            ),
            ConfigError::InvalidGateway(m) => prefixed("invalid configured gateway address: ", m),
            ConfigError::InvalidUrl(m) => prefixed("invalid qbittorrent base url: ", m),
        }
    }
}

impl QbitError {
    /// A one-line human-readable description.
    pub fn describe(&self) -> (r: String)
        ensures
            r@ == qbit_error_text(*self),
    {
        match self {
            QbitError::Auth(m) => prefixed("authentication failed: ", m),
            QbitError::UnexpectedResponse { status, message } => {
                let code = decimal_text(*status as u64);
                String::from_str("unexpected response status: ").concat(code.as_str()).concat(
                    " ",
                ).concat(message.as_str())
            },
            QbitError::Deserialize(m) => prefixed(
                "failed to deserialize qBittorrent preferences: ",
                m,
            ),
        }
    }
}

impl PortMapError {
    /// A one-line human-readable description.
    pub fn describe(&self) -> (r: String)
        ensures
            r@ == port_map_error_text(*self),
    {
        match self {
            PortMapError::Pcp(m) => prefixed("pcp mapping failed: ", m),
            PortMapError::PcpNotSupported(m) => prefixed("pcp not supported: ", m),
            PortMapError::NatPmp(m) => prefixed("nat-pmp mapping failed: ", m),
            PortMapError::Exhausted { pcp, natpmp } => prefixed("pcp mapping failed: ", pcp).concat(
                "; nat-pmp mapping failed: ",
            ).concat(natpmp.as_str()),
        }
    }
}

impl SyncError {
    /// A one-line human-readable description.
    pub fn describe(&self) -> (r: String)
        ensures
            r@ == sync_error_text(*self),
    {
        match self {
            SyncError::Config(c) => c.describe(),
            SyncError::Unsupported(u) => u.0.clone(),
            SyncError::PortMap(p) => p.describe(),
            SyncError::Qbit(q) => q.describe(),
            SyncError::Other(m) => m.clone(),
        }
    }
}

} // verus!
