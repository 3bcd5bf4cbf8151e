//! Keeps a torrent client's listening port in step with the port that a VPN
//! or NAT gateway forwards to this host.
pub mod text;
pub mod error;
pub mod paths;
pub mod config;
pub mod watch;
pub mod portmap;
pub mod strategy;
pub mod qbit;
pub mod engine;
pub mod report;

pub use config::Config;
pub use report::JsonReport;
