//! The daemon's configuration, as the engine reads it.
use crate::error::{ConfigError, SyncError};
use crate::paths::{
    is_relative_path, joined_path, parent_of_path, path_is_relative, path_join, path_parent,
};
use crate::text::{decimal_of, decimal_text, trim_text, trimmed};
use vstd::prelude::*;
use vstd::string::StringExecFns;

verus! {

/// Which transport protocol a mapping is requested for.
#[derive(Debug, Clone, Copy, PartialEq, Eq, Structural)]
pub enum PortProtocol {
    TCP,
    UDP,
    BOTH,
}

/// How to reach the torrent client's Web API.
#[derive(Debug, Clone)]
pub struct QbittorrentConfig {
    pub base_url: String,
    pub username: String,
    pub password: Option<String>,
    /// The network interface the client should bind to, if any.
    pub bind_interface: Option<String>,
}

/// Where the VPN client publishes the forwarded port.
#[derive(Debug, Clone)]
pub struct ProtonVpnConfig {
    pub forwarded_port_path: Option<String>,
}

/// How gateway port mappings are requested.
#[derive(Debug, Clone)]
pub struct PortMapConfig {
    /// 0 asks for a random ephemeral port on each attempt.
    pub internal_port: u16,
    pub protocol: PortProtocol,
    pub refresh_secs: u64,
    pub autodiscover_gateway: bool,
    pub gateway: Option<String>,
}

#[derive(Debug, Clone)]
pub struct Config {
    pub qbittorrent: QbittorrentConfig,
    pub protonvpn: ProtonVpnConfig,
    pub portmap: PortMapConfig,
    /// The file the configuration was read from.
    pub source: Option<String>,
}

/// A text value that holds something besides whitespace.
pub open spec fn is_present(s: Seq<char>) -> bool {
    trimmed(s).len() > 0
}

/// An optional text value read from a file: a blank one counts as absent, and
/// one that is there is trimmed.
pub open spec fn blank_as_none(v: Option<Seq<char>>) -> Option<Seq<char>> {
    match v {
        Some(s) => if is_present(s) { Some(trimmed(s)) } else { None },
        None => None,
    }
}

pub open spec fn opt_view(v: Option<String>) -> Option<Seq<char>> {
    match v {
        Some(s) => Some(s@),
        None => None,
    }
}

/// Treats a blank optional value as absent and trims one that is there.
pub fn empty_string_as_none(value: Option<String>) -> (r: Option<String>)
    ensures
        opt_view(r) == blank_as_none(opt_view(value)),
{
    match value {
        Some(s) => {
            let t = trim_text(s.as_str());
            if t.unicode_len() == 0 {
                None
            } else {
                Some(String::from_str(t))
            }
        },
        None => None,
    }
}

/// The path that a relative configured path stands for: it is taken relative
/// to the directory of the configuration file, when that is known.
pub open spec fn anchored_path(path: Seq<char>, source: Option<Seq<char>>) -> Seq<char> {
    if is_relative_path(path) && source is Some && parent_of_path(source->Some_0) is Some {
        joined_path(parent_of_path(source->Some_0)->Some_0, path)
    } else {
        path
    }
}

/// The forwarded-port file that the platform's VPN client writes: under the
/// user's runtime directory, or under `/run/user/<uid>` when none is known.
pub open spec fn platform_port_path(runtime_dir: Option<Seq<char>>, uid: u32) -> Seq<char> {
    match runtime_dir {
        Some(d) => joined_path(d, "Proton/VPN/forwarded_port"@),
        None => "/run/user/"@ + decimal_of(uid as nat) + "/Proton/VPN/forwarded_port"@,
    }
}

/// Where the VPN client writes the forwarded port on this host.
pub fn default_forwarded_port_path(runtime_dir: Option<String>, uid: u32) -> (r: String)
    ensures
        r@ == platform_port_path(opt_view(runtime_dir), uid),
{
    match runtime_dir {
        Some(d) => path_join(d.as_str(), "Proton/VPN/forwarded_port"),
        None => {
            let id = decimal_text(uid as u64);
            String::from_str("/run/user/").concat(id.as_str()).concat("/Proton/VPN/forwarded_port")
        },
    }
}

/// The places searched for a configuration file, in order: the user's
/// configuration directory, then the system one.
pub open spec fn candidate_paths(config_dir: Option<Seq<char>>) -> Seq<Seq<char>> {
    match config_dir {
        Some(d) => seq![
            joined_path(joined_path(d, "qb-port-sync"@), "config.toml"@),
            "/etc/qb-port-sync/config.toml"@,
        ],
        None => seq!["/etc/qb-port-sync/config.toml"@],
    }
}

pub fn config_candidates(config_dir: Option<String>) -> (r: Vec<String>)
    ensures
        r@.map_values(|s: String| s@) == candidate_paths(opt_view(config_dir)),
{
    let mut r: Vec<String> = Vec::new();
    match config_dir {
        Some(d) => {
            let app_dir = path_join(d.as_str(), "qb-port-sync");
            r.push(path_join(app_dir.as_str(), "config.toml"));
        },
        None => {},
    }
    r.push(String::from_str("/etc/qb-port-sync/config.toml"));
    assert(r@.map_values(|s: String| s@) =~= candidate_paths(opt_view(config_dir)));
    r
}

/// Picks the configuration file: the one named on the command line, else the
/// first candidate found to exist (each candidate comes with whether it does).
pub fn find_config(cli_path: Option<String>, candidates: &Vec<(String, bool)>) -> (r: Result<
    String,
    SyncError,
>)
    ensures
        cli_path is Some ==> r is Ok && r->Ok_0@ == cli_path->Some_0@,
        cli_path is None ==> match r {
            Ok(p) => exists|i: int|
                0 <= i < candidates@.len() && candidates@[i].1 && p@ == candidates@[i].0@
                    && forall|j: int| 0 <= j < i ==> !#[trigger] candidates@[j].1,
            Err(e) => e == SyncError::Config(ConfigError::MissingConfig) && forall|i: int|
                0 <= i < candidates@.len() ==> !#[trigger] candidates@[i].1,
        },
{
    match cli_path {
        Some(p) => Ok(p),
        None => {
            let mut i: usize = 0;
            while i < candidates.len()
                invariant
                    cli_path is None,
                    i <= candidates@.len(),
                    forall|j: int| 0 <= j < i ==> !#[trigger] candidates@[j].1,
                decreases candidates@.len() - i,
            {
                if candidates[i].1 {
                    return Ok(candidates[i].0.clone());
                }
                i += 1;
            }
            Err(SyncError::Config(ConfigError::MissingConfig))
        },
    }
}

impl PortMapConfig {
    pub fn default_protocol() -> (r: PortProtocol)
        ensures
            r == PortProtocol::TCP,
    {
        PortProtocol::TCP
    }

    pub fn default_refresh_secs() -> (r: u64)
        ensures
            r == 300,
    {
        300
    }

    pub fn default_autodiscover() -> (r: bool)
        ensures
            r,
    {
        true
    }
}

impl Config {
    /// A configuration read from `source` (none where it did not come from a
    /// file): a relative forwarded-port path is taken relative to the file's
    /// directory.
    pub fn load_from(
        qbittorrent: QbittorrentConfig,
        protonvpn: ProtonVpnConfig,
        portmap: PortMapConfig,
        source: Option<String>,
    ) -> (r: Config)
        ensures
            r.qbittorrent == qbittorrent,
            r.portmap == portmap,
            r.source == source,
            match protonvpn.forwarded_port_path {
                Some(p) => r.protonvpn.forwarded_port_path is Some
                    && r.protonvpn.forwarded_port_path->Some_0@ == anchored_path(p@, opt_view(source)),
                None => r.protonvpn.forwarded_port_path is None,
            },
    {
        let mut cfg = Config { qbittorrent, protonvpn, portmap, source };
        cfg.post_process();
        cfg
    }

    pub fn source_path(&self) -> (r: Option<&String>)
        ensures
            match r {
                Some(p) => self.source == Some(*p),
                None => self.source is None,
            },
    {
        self.source.as_ref()
    }

    /// The qBittorrent password: the configured one if it is not blank, else
    /// the one given in the environment if that is not blank.
    pub fn qbittorrent_password(&self, env_password: Option<String>) -> (r: Result<String, SyncError>)
        ensures
            match self.qbittorrent.password {
                Some(p) if is_present(p@) => r is Ok && r->Ok_0@ == p@,
                _ => match env_password {
                    Some(e) if is_present(e@) => r is Ok && r->Ok_0@ == e@,
                    _ => r == Err::<String, SyncError>(SyncError::Config(ConfigError::MissingQbPassword)),
                },
            },
    {
        match &self.qbittorrent.password {
            Some(p) => {
                if trim_text(p.as_str()).unicode_len() > 0 {
                    return Ok(p.clone());
                }
            },
            None => {},
        }
        match env_password {
            Some(e) => {
                if trim_text(e.as_str()).unicode_len() > 0 {
                    return Ok(e);
                }
            },
            None => {},
        }
        Err(SyncError::Config(ConfigError::MissingQbPassword))
    }

    /// The forwarded-port file: the configured one, else the platform's default
    /// (none where the platform has none).
    pub fn resolved_forwarded_port_path(&self, platform_default: Option<String>) -> (r: Option<String>)
        ensures
            opt_view(r) == match self.protonvpn.forwarded_port_path {
                Some(p) => Some(p@),
                None => opt_view(platform_default),
            },
    {
        match &self.protonvpn.forwarded_port_path {
            Some(p) => Some(p.clone()),
            None => platform_default,
        }
    }

    /// The interface the client should bind to, when one is configured.
    pub fn bind_interface(&self) -> (r: Option<String>)
        ensures
            opt_view(r) == blank_as_none(opt_view(self.qbittorrent.bind_interface)),
    {
        empty_string_as_none(self.qbittorrent.bind_interface.clone())
    }

    fn post_process(&mut self)
        ensures
            final(self).qbittorrent == old(self).qbittorrent,
            final(self).portmap == old(self).portmap,
            final(self).source == old(self).source,
            match old(self).protonvpn.forwarded_port_path {
                Some(p) => final(self).protonvpn.forwarded_port_path is Some
                    && final(self).protonvpn.forwarded_port_path->Some_0@
                        == anchored_path(p@, opt_view(old(self).source)),
                None => final(self).protonvpn.forwarded_port_path is None,
            },
    {
        let anchored = match &self.protonvpn.forwarded_port_path {
            Some(path) => {
                if path_is_relative(path.as_str()) {
                    match &self.source {
                        Some(src) => match path_parent(src.as_str()) {
                            Some(dir) => Some(path_join(dir.as_str(), path.as_str())),
                            None => None,
                        },
                        None => None,
                    }
                } else {
                    None
                }
            },
            None => None,
        };
        match anchored {
            Some(a) => {
                self.protonvpn.forwarded_port_path = Some(a);
            },
            None => {},
        }
    }
}

} // verus!
