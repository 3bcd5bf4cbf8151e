use qb_port_sync::config::{
    config_candidates, default_forwarded_port_path, empty_string_as_none, find_config, Config,
    PortMapConfig, PortProtocol, ProtonVpnConfig, QbittorrentConfig,
};
use qb_port_sync::error::{classify_error, ConfigError, ExitCode, PortMapError, SyncError, UnsupportedError};
use qb_port_sync::portmap::PortmapMode;
use qb_port_sync::report::{check_output_mode, daemon_stopped, log_filter, once_success, route_request, route_status, run_failure, HttpRoute};
use qb_port_sync::engine::StrategyOutcome;
use qb_port_sync::strategy::{
    map_strategy_label, prefer_file_strategy, resolve_plan, strategy_opt_label, PathProbe,
    StrategyOpt, StrategyPlan,
};
use qb_port_sync::JsonReport;

fn config(password: Option<&str>, path: Option<&str>, source: Option<&str>) -> Config {
    Config::load_from(
        QbittorrentConfig {
            base_url: "http://127.0.0.1:8080".into(),
            username: "admin".into(),
            password: password.map(|p| p.to_string()),
            bind_interface: Some("  tun0 ".into()),
        },
        ProtonVpnConfig { forwarded_port_path: path.map(|p| p.to_string()) },
        PortMapConfig {
            internal_port: 0,
            protocol: PortProtocol::TCP,
            refresh_secs: PortMapConfig::default_refresh_secs(),
            autodiscover_gateway: PortMapConfig::default_autodiscover(),
            gateway: None,
        },
        source.map(|s| s.to_string()),
    )
}

#[test]
fn auto_prefers_file_when_its_directory_exists() {
    let path = Some("/run/user/1000/Proton/VPN/forwarded_port".to_string());
    let probe = PathProbe { file_exists: false, parent_exists: true };
    assert!(prefer_file_strategy(&path, &probe));
    match resolve_plan(StrategyOpt::Auto, &path, &probe).unwrap() {
        StrategyPlan::File { path: p } => assert_eq!(p, "/run/user/1000/Proton/VPN/forwarded_port"),
        other => panic!("unexpected {:?}", other),
    }
}

#[test]
fn auto_falls_back_to_mapping() {
    let path = Some("/run/user/1000/Proton/VPN/forwarded_port".to_string());
    let probe = PathProbe { file_exists: false, parent_exists: false };
    assert!(matches!(
        resolve_plan(StrategyOpt::Auto, &path, &probe).unwrap(),
        StrategyPlan::Portmap { mode: PortmapMode::Auto }
    ));
    assert!(matches!(
        resolve_plan(StrategyOpt::Auto, &None, &probe).unwrap(),
        StrategyPlan::Portmap { mode: PortmapMode::Auto }
    ));
}

#[test]
fn file_strategy_needs_the_directory() {
    let path = Some("/missing/dir/forwarded_port".to_string());
    let probe = PathProbe { file_exists: false, parent_exists: false };
    match resolve_plan(StrategyOpt::File, &path, &probe) {
        Err(e) => {
            assert_eq!(classify_error(&e), ExitCode::Config);
            assert_eq!(e.describe(), "forwarded port path unavailable: /missing/dir");
        }
        Ok(p) => panic!("unexpected {:?}", p),
    }
    match resolve_plan(StrategyOpt::File, &None, &probe) {
        Err(e) => assert_eq!(classify_error(&e), ExitCode::Unsupported),
        Ok(p) => panic!("unexpected {:?}", p),
    }
    assert!(matches!(
        resolve_plan(StrategyOpt::Pcp, &None, &probe).unwrap(),
        StrategyPlan::Portmap { mode: PortmapMode::PcpOnly }
    ));
    assert!(matches!(
        resolve_plan(StrategyOpt::Natpmp, &None, &probe).unwrap(),
        StrategyPlan::Portmap { mode: PortmapMode::NatOnly }
    ));
}

#[test]
fn json_output_requires_single_shot() {
    let f = check_output_mode(true, false, StrategyOpt::Auto).unwrap_err();
    assert_eq!(f.code, ExitCode::Config);
    assert!(f.emit_json);
    assert_eq!(f.report.strategy, "auto");
    assert_eq!(f.report.note, "json mode requires --once");
    assert_eq!(f.report.error.as_deref(), Some("--json is only supported with --once mode"));
    assert!(check_output_mode(true, true, StrategyOpt::Auto).is_ok());
    assert!(check_output_mode(false, false, StrategyOpt::File).is_ok());
}

#[test]
fn exit_codes() {
    assert_eq!(ExitCode::Success.status(), 0);
    assert_eq!(ExitCode::Transient.status(), 1);
    assert_eq!(ExitCode::Config.status(), 2);
    assert_eq!(ExitCode::Unsupported.status(), 3);
    assert_eq!(classify_error(&SyncError::Config(ConfigError::MissingConfig)), ExitCode::Config);
    assert_eq!(classify_error(&SyncError::Unsupported(UnsupportedError::new("x"))), ExitCode::Unsupported);
    assert_eq!(classify_error(&SyncError::PortMap(PortMapError::PcpNotSupported("x".into()))), ExitCode::Unsupported);
    assert_eq!(classify_error(&SyncError::PortMap(PortMapError::Pcp("x".into()))), ExitCode::Transient);
    assert_eq!(classify_error(&SyncError::Other("x".into())), ExitCode::Transient);
}

#[test]
fn reports() {
    let f = run_failure("pcp", SyncError::PortMap(PortMapError::NatPmp("gone".into())), false);
    assert_eq!(f.code, ExitCode::Transient);
    assert_eq!(f.report.error.as_deref(), Some("nat-pmp mapping failed: gone"));
    let s = once_success(
        StrategyOutcome { strategy: "file".into(), detected_port: Some(51820), verified: true, note: None },
        true,
    );
    assert_eq!(s.code, ExitCode::Success);
    assert!(s.report.applied);
    assert_eq!(s.report.note, "");
    let d = daemon_stopped(false);
    assert_eq!(d.report.note, "exited on signal");
    let r = JsonReport::new("file");
    assert!(!r.applied && r.error.is_none());
}

#[test]
fn labels_and_routes() {
    assert_eq!(strategy_opt_label(StrategyOpt::Natpmp), "natpmp");
    assert_eq!(map_strategy_label(PortmapMode::NatOnly, qb_port_sync::portmap::Strategy::Pcp), "natpmp");
    assert_eq!(log_filter(0), "info");
    assert_eq!(log_filter(1), "debug");
    assert_eq!(log_filter(5), "trace");
    assert_eq!(route_request("/healthz", false), HttpRoute::Unhealthy);
    assert_eq!(route_status(route_request("/healthz", true)), 200);
    assert_eq!(route_status(route_request("/healthz", false)), 503);
    assert_eq!(route_request("/metrics", false), HttpRoute::Metrics);
    assert_eq!(route_status(route_request("/", true)), 404);
}

#[test]
fn passwords() {
    assert_eq!(config(Some("secret"), None, None).qbittorrent_password(None).unwrap(), "secret");
    assert_eq!(
        config(Some("  "), None, None).qbittorrent_password(Some("env".into())).unwrap(),
        "env"
    );
    assert!(matches!(
        config(None, None, None).qbittorrent_password(Some(" ".into())),
        Err(SyncError::Config(ConfigError::MissingQbPassword))
    ));
}

#[test]
fn relative_port_path_follows_the_config_file() {
    let c = config(None, Some("state/port"), Some("/etc/qb-port-sync/config.toml"));
    assert_eq!(c.protonvpn.forwarded_port_path.as_deref(), Some("/etc/qb-port-sync/state/port"));
    assert_eq!(c.source_path().map(|s| s.as_str()), Some("/etc/qb-port-sync/config.toml"));
    let abs = config(None, Some("/var/port"), Some("/etc/qb-port-sync/config.toml"));
    assert_eq!(abs.protonvpn.forwarded_port_path.as_deref(), Some("/var/port"));
    assert_eq!(abs.resolved_forwarded_port_path(Some("/d".into())).as_deref(), Some("/var/port"));
    let none = config(None, None, None);
    assert_eq!(none.resolved_forwarded_port_path(Some("/d".into())).as_deref(), Some("/d"));
    assert_eq!(none.bind_interface().as_deref(), Some("tun0"));
}

#[test]
fn platform_default_path() {
    assert_eq!(
        default_forwarded_port_path(Some("/run/user/1000".into()), 7),
        "/run/user/1000/Proton/VPN/forwarded_port"
    );
    assert_eq!(default_forwarded_port_path(None, 1000), "/run/user/1000/Proton/VPN/forwarded_port");
    assert_eq!(default_forwarded_port_path(None, 0), "/run/user/0/Proton/VPN/forwarded_port");
}

#[test]
fn config_file_search() {
    let c = config_candidates(Some("/home/u/.config".into()));
    assert_eq!(c, vec!["/home/u/.config/qb-port-sync/config.toml".to_string(), "/etc/qb-port-sync/config.toml".to_string()]);
    assert_eq!(config_candidates(None).len(), 1);
    assert_eq!(find_config(Some("/x.toml".into()), &vec![]).unwrap(), "/x.toml");
    let found = find_config(None, &vec![("/a".to_string(), false), ("/b".to_string(), true), ("/c".to_string(), true)]);
    assert_eq!(found.unwrap(), "/b");
    assert!(matches!(
        find_config(None, &vec![("/a".to_string(), false)]),
        Err(SyncError::Config(ConfigError::MissingConfig))
    ));
    assert_eq!(empty_string_as_none(Some("  x ".into())).as_deref(), Some("x"));
    assert_eq!(empty_string_as_none(Some(" \n".into())), None);
    assert_eq!(empty_string_as_none(None), None);
    assert_eq!(PortMapConfig::default_protocol(), PortProtocol::TCP);
}
