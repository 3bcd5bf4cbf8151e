use qb_port_sync::config::{Config, PortMapConfig, PortProtocol, ProtonVpnConfig, QbittorrentConfig};
use qb_port_sync::watch::{
    is_relevant, parse_port, read_forwarded_port_once, should_reread, PortWatchState,
    WatchEventKind,
};

fn config_with_port_path(path: Option<&str>) -> Config {
    Config::load_from(
        QbittorrentConfig {
            base_url: "http://127.0.0.1:8080".to_string(),
            username: "admin".to_string(),
            password: None,
            bind_interface: None,
        },
        ProtonVpnConfig { forwarded_port_path: path.map(|p| p.to_string()) },
        PortMapConfig {
            internal_port: 0,
            protocol: PortProtocol::TCP,
            refresh_secs: 300,
            autodiscover_gateway: true,
            gateway: None,
        },
        None,
    )
}

#[test]
fn parses_valid_ports() {
    assert_eq!(parse_port("51820").unwrap(), 51820);
}

#[test]
fn rejects_invalid_ports() {
    assert!(parse_port("").is_err());
    assert!(parse_port("not-a-port").is_err());
    assert!(parse_port("70000").is_err());
}

#[test]
fn parser_boundary_cases() {
    assert!(parse_port("").is_err());
    assert!(parse_port("abc").is_err());
    assert!(parse_port("70000").is_err());
    assert_eq!(parse_port(" 51820 \n").unwrap(), 51820);
}

#[test]
fn parser_edges() {
    assert_eq!(parse_port("0").unwrap(), 0);
    assert_eq!(parse_port("65535").unwrap(), 65535);
    assert!(parse_port("65536").is_err());
    assert_eq!(parse_port("+80").unwrap(), 80);
    assert!(parse_port("-80").is_err());
    assert!(parse_port("+").is_err());
    assert!(parse_port("12 34").is_err());
    assert!(parse_port("99999999999999999999").is_err());
    assert_eq!(parse_port("\t\u{3000}443\u{a0}").unwrap(), 443);
    let err = parse_port("  bad \n").unwrap_err();
    assert_eq!(err.value, "bad");
    assert_eq!(err.describe(), "invalid forwarded port value: bad");
}

#[test]
fn repeated_writes_emit_once() {
    let mut state = PortWatchState::new();
    assert_eq!(state.observe(Some(51413)), Some(51413));
    assert_eq!(state.observe(Some(51413)), None);
    assert_eq!(state.observe(Some(51413)), None);
    assert_eq!(state.last_port, Some(51413));
}

#[test]
fn failed_readings_are_not_emitted() {
    let mut state = PortWatchState::new();
    assert_eq!(state.observe(None), None);
    assert_eq!(state.observe(Some(1000)), Some(1000));
    assert_eq!(state.observe(None), None);
    assert_eq!(state.observe(Some(2000)), Some(2000));
    assert_eq!(state.observe(Some(1000)), Some(1000));
    assert_eq!(state.last_port, Some(1000));
}

#[test]
fn events_in_the_watched_directory_are_relevant() {
    let watched = "/run/user/1000/Proton/VPN/forwarded_port";
    assert!(is_relevant(&vec![], watched));
    assert!(is_relevant(&vec![watched.to_string()], watched));
    assert!(is_relevant(&vec!["/run/user/1000/Proton/VPN/other".to_string()], watched));
    assert!(!is_relevant(&vec!["/tmp/elsewhere".to_string()], watched));
    assert!(should_reread(WatchEventKind::Modify, &vec![watched.to_string()], watched));
    assert!(!should_reread(WatchEventKind::Other, &vec![watched.to_string()], watched));
    assert!(should_reread(WatchEventKind::Other, &vec![], watched));
    assert!(!should_reread(WatchEventKind::Create, &vec!["/tmp/x".to_string()], watched));
}

#[test]
fn reads_the_configured_file_once() {
    let cfg = config_with_port_path(Some("/state/forwarded_port"));
    let got = read_forwarded_port_once(&cfg, None, |p: &String| {
        assert_eq!(p, "/state/forwarded_port");
        Ok(" 51820\n".to_string())
    });
    assert_eq!(got.unwrap(), 51820);

    let failed = read_forwarded_port_once(&cfg, None, |_p: &String| Err("denied".to_string()));
    assert_eq!(failed.unwrap_err().describe(), "denied");

    let garbage = read_forwarded_port_once(&cfg, None, |_p: &String| Ok("x".to_string()));
    assert!(garbage.is_err());
}

#[test]
fn reads_the_platform_default_when_none_is_configured() {
    let cfg = config_with_port_path(None);
    let got = read_forwarded_port_once(&cfg, Some("/run/default".to_string()), |p: &String| {
        assert_eq!(p, "/run/default");
        Ok("1234".to_string())
    });
    assert_eq!(got.unwrap(), 1234);
    let none = read_forwarded_port_once(&cfg, None, |_p: &String| Ok("1".to_string()));
    assert_eq!(none.unwrap_err().describe(), "forwarded port path not configured");
}
