//! Choosing how the port is learned: from the VPN client's file, or by
//! negotiating a mapping with the gateway.
use crate::error::{ConfigError, SyncError};
use crate::paths::{parent_of_path, path_parent};
use crate::portmap::{PortmapMode, Strategy};
use vstd::prelude::*;
use vstd::string::StringExecFns;

verus! {

/// The strategy asked for on the command line.
#[derive(Debug, Clone, Copy, PartialEq, Eq, Structural)]
pub enum StrategyOpt {
    File,
    Pcp,
    Natpmp,
    Auto,
}

/// How the daemon learns the port, fixed for its lifetime.
#[derive(Debug, Clone)]
pub enum StrategyPlan {
    File { path: String },
    Portmap { mode: PortmapMode },
}

/// What the filesystem shows of the forwarded-port path.
#[derive(Debug, Clone, Copy, PartialEq, Eq, Structural)]
pub struct PathProbe {
    pub file_exists: bool,
    /// False also where the path has no parent.
    pub parent_exists: bool,
}

/// The file is preferred when it exists, or when the directory it would be
/// written to does: the VPN client appears to manage that path on this host.
pub open spec fn prefers_file(path: Option<String>, probe: PathProbe) -> bool {
    match path {
        Some(p) => probe.file_exists || (parent_of_path(p@) is Some && probe.parent_exists),
        None => false,
    }
}

pub fn prefer_file_strategy(path: &Option<String>, probe: &PathProbe) -> (r: bool)
    ensures
        r == prefers_file(*path, *probe),
{
    match path {
        Some(p) => {
            if probe.file_exists {
                return true;
            }
            match path_parent(p.as_str()) {
                Some(_) => probe.parent_exists,
                None => false,
            }
        },
        None => false,
    }
}

/// What choosing the forwarded-port file at `path` gives, with `value` the
/// result on success: the path when its directory exists; a platform
/// without such a path is unsupported; a missing directory, or a path
/// without one, is a configuration error naming it.
pub open spec fn file_choice<T>(path: Option<String>, probe: PathProbe, r: Result<T, SyncError>, value: T) -> bool {
    match path {
        None => r is Err && r->Err_0 is Unsupported,
        Some(p) => match parent_of_path(p@) {
            Some(d) => if probe.parent_exists {
                r == Ok::<T, SyncError>(value)
            } else {
                r is Err && r->Err_0 is Config && r->Err_0->Config_0 is ForwardedPortUnavailable
                    && r->Err_0->Config_0->ForwardedPortUnavailable_0@ == d
            },
            None => r is Err && r->Err_0 is Config && r->Err_0->Config_0 is ForwardedPortUnavailable
                && r->Err_0->Config_0->ForwardedPortUnavailable_0@ == p@,
        },
    }
}

/// The forwarded-port file to watch: its directory must exist.
pub fn resolve_forwarded_port_path(path: &Option<String>, probe: &PathProbe) -> (r: Result<
    String,
    SyncError,
>)
    ensures
        file_choice(*path, *probe, r, path->Some_0),
{
    match path {
        None => Err(
            SyncError::Unsupported(
                crate::error::UnsupportedError::new(
                    "forwarded port file path unavailable on this platform",
                ),
            ),
        ),
        Some(p) => match path_parent(p.as_str()) {
            Some(d) => {
                if probe.parent_exists {
                    Ok(p.clone())
                } else {
                    Err(SyncError::Config(ConfigError::ForwardedPortUnavailable(d)))
                }
            },
            None => Err(SyncError::Config(ConfigError::ForwardedPortUnavailable(p.clone()))),
        },
    }
}

/// Chooses the plan: the file strategy, a single protocol, or, for the
/// automatic choice, the file when it is preferred and negotiation otherwise.
/// `path` is the forwarded-port path, and `probe` what the filesystem shows of it.
pub fn resolve_plan(strategy: StrategyOpt, path: &Option<String>, probe: &PathProbe) -> (r: Result<
    StrategyPlan,
    SyncError,
>)
    ensures
        strategy == StrategyOpt::Pcp ==> r is Ok && r->Ok_0 == (StrategyPlan::Portmap {
            mode: PortmapMode::PcpOnly,
        }),
        strategy == StrategyOpt::Natpmp ==> r is Ok && r->Ok_0 == (StrategyPlan::Portmap {
            mode: PortmapMode::NatOnly,
        }),
        strategy == StrategyOpt::Auto && !prefers_file(*path, *probe) ==> r is Ok && r->Ok_0 == (
        StrategyPlan::Portmap { mode: PortmapMode::Auto }),
        strategy == StrategyOpt::File || (strategy == StrategyOpt::Auto && prefers_file(
            *path,
            *probe,
        )) ==> file_choice(*path, *probe, r, (StrategyPlan::File { path: path->Some_0 })),
{
    match strategy {
        StrategyOpt::File => {
            let p = resolve_forwarded_port_path(path, probe)?;
            Ok(StrategyPlan::File { path: p })
        },
        StrategyOpt::Pcp => Ok(StrategyPlan::Portmap { mode: PortmapMode::PcpOnly }),
        StrategyOpt::Natpmp => Ok(StrategyPlan::Portmap { mode: PortmapMode::NatOnly }),
        StrategyOpt::Auto => {
            if prefer_file_strategy(path, probe) {
                let p = resolve_forwarded_port_path(path, probe)?;
                Ok(StrategyPlan::File { path: p })
            } else {
                Ok(StrategyPlan::Portmap { mode: PortmapMode::Auto })
            }
        },
    }
}

/// A present directory and an absent file select the file for the automatic choice.
pub proof fn lemma_present_directory_selects_file(p: String)
    requires
        parent_of_path(p@) is Some,
    ensures
        prefers_file(Some(p), PathProbe { file_exists: false, parent_exists: true }),
{
}

pub open spec fn opt_label(opt: StrategyOpt) -> Seq<char> {
    match opt {
        StrategyOpt::File => "file"@,
        StrategyOpt::Pcp => "pcp"@,
        StrategyOpt::Natpmp => "natpmp"@,
        StrategyOpt::Auto => "auto"@,
    }
}

pub fn strategy_opt_label(opt: StrategyOpt) -> (r: &'static str)
    ensures
        r@ == opt_label(opt),
{
    match opt {
        StrategyOpt::File => "file",
        StrategyOpt::Pcp => "pcp",
        StrategyOpt::Natpmp => "natpmp",
        StrategyOpt::Auto => "auto",
    }
}

/// The label of the protocol a cycle used: the one the mode allows, or, in the
/// automatic mode, the one that produced the mapping.
pub open spec fn mapping_label(mode: PortmapMode, used: Strategy) -> Seq<char> {
    match mode {
        PortmapMode::PcpOnly => "pcp"@,
        PortmapMode::NatOnly => "natpmp"@,
        PortmapMode::Auto => match used {
            Strategy::Pcp => "pcp"@,
            Strategy::NatPmp => "natpmp"@,
        },
    }
}

pub fn map_strategy_label(mode: PortmapMode, result_strategy: Strategy) -> (r: String)
    ensures
        r@ == mapping_label(mode, result_strategy),
{
    match mode {
        PortmapMode::PcpOnly => String::from_str("pcp"),
        PortmapMode::NatOnly => String::from_str("natpmp"),
        PortmapMode::Auto => match result_strategy {
            Strategy::Pcp => String::from_str("pcp"),
            Strategy::NatPmp => String::from_str("natpmp"),
        },
    }
}

/// The label of a plan, as reports name it.
pub open spec fn plan_label(plan: StrategyPlan) -> Seq<char> {
    match plan {
        StrategyPlan::File { .. } => "file"@,
        StrategyPlan::Portmap { mode } => match mode {
            PortmapMode::Auto => "auto"@,
            PortmapMode::PcpOnly => "pcp"@,
            PortmapMode::NatOnly => "natpmp"@,
        },
    }
}

pub fn strategy_plan_label(plan: &StrategyPlan) -> (r: String)
    ensures
        r@ == plan_label(*plan),
{
    match plan {
        StrategyPlan::File { .. } => String::from_str("file"),
        StrategyPlan::Portmap { mode } => match mode {
            PortmapMode::Auto => String::from_str("auto"),
            PortmapMode::PcpOnly => String::from_str("pcp"),
            PortmapMode::NatOnly => String::from_str("natpmp"),
        },
    }
}

} // verus!
