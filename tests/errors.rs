use qb_port_sync::error::{ConfigError, PortMapError, QbitError, SyncError, UnsupportedError};

#[test]
fn every_error_describes_itself() {
    let cases = vec![
        (SyncError::Config(ConfigError::Io("gone".into())), "failed to read config file: gone"),
        (SyncError::Config(ConfigError::Toml("bad".into())), "failed to parse config file: bad"),
        (
            SyncError::Config(ConfigError::MissingConfig),
            "no configuration file found; pass --config or create one in a standard location",
        ),
        (
            SyncError::Config(ConfigError::MissingQbPassword),
            "missing qbittorrent password (set in config or QB_PORT_SYNC_QB_PASSWORD)",
        ),
        (
            SyncError::Config(ConfigError::ForwardedPortUnavailable("/run".into())),
            "forwarded port path unavailable: /run",
        ),
        (
            SyncError::Config(ConfigError::MissingGateway),
            "gateway discovery disabled and no gateway configured",
        ),
        (
            SyncError::Config(ConfigError::InvalidGateway("x".into())),
            "invalid configured gateway address: x",
        ),
        (
            SyncError::Config(ConfigError::InvalidUrl("y".into())),
            "invalid qbittorrent base url: y",
        ),
        (SyncError::Unsupported(UnsupportedError::new("nope")), "nope"),
        (SyncError::PortMap(PortMapError::Pcp("a".into())), "pcp mapping failed: a"),
        (SyncError::PortMap(PortMapError::PcpNotSupported("b".into())), "pcp not supported: b"),
        (SyncError::PortMap(PortMapError::NatPmp("c".into())), "nat-pmp mapping failed: c"),
        (
            SyncError::PortMap(PortMapError::Exhausted { pcp: "a".into(), natpmp: "c".into() }),
            "pcp mapping failed: a; nat-pmp mapping failed: c",
        ),
        (SyncError::Qbit(QbitError::Auth("Fails.".into())), "authentication failed: Fails."),
        (
            SyncError::Qbit(QbitError::UnexpectedResponse { status: 401, message: "no".into() }),
            "unexpected response status: 401 no",
        ),
        (
            SyncError::Qbit(QbitError::Deserialize("eof".into())),
            "failed to deserialize qBittorrent preferences: eof",
        ),
        (SyncError::Other("plain".into()), "plain"),
    ];
    for (err, text) in cases {
        assert_eq!(err.describe(), text);
    }
}
