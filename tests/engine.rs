use qb_port_sync::engine::{
    build_note, file_outcome, mapping_outcome, next_wake_delay, EngineAction, EngineEvent,
    EngineState, PortSource, PortSyncEngine,
};
use qb_port_sync::error::{ConfigError, QbitError, SyncError};
use qb_port_sync::portmap::{MapResult, PortmapMode, Strategy};
use qb_port_sync::qbit::PortUpdateResult;
use qb_port_sync::strategy::StrategyPlan;

fn update(port: u16, verified: bool) -> PortUpdateResult {
    PortUpdateResult { detected_port: port, verified, random_port: None, upnp: None }
}

#[test]
fn lease_is_halved_from_twenty_seconds() {
    assert_eq!(next_wake_delay(Some(7200), 300), 3600);
    assert_eq!(next_wake_delay(Some(20), 300), 10);
    assert_eq!(next_wake_delay(Some(21), 300), 10);
    assert_eq!(next_wake_delay(Some(60), 300), 30);
}

#[test]
fn short_or_absent_lease_uses_refresh_with_floor() {
    assert_eq!(next_wake_delay(Some(19), 300), 300);
    assert_eq!(next_wake_delay(None, 300), 300);
    assert_eq!(next_wake_delay(None, 5), 10);
    assert_eq!(next_wake_delay(Some(0), 0), 10);
}

#[test]
fn notes_join_lease_and_leftover_settings() {
    let u = PortUpdateResult { detected_port: 1, verified: true, random_port: Some(true), upnp: Some(true) };
    assert_eq!(
        build_note(&u, Some(300)).unwrap(),
        "ttl=300s; random_port still enabled; upnp still enabled"
    );
    assert_eq!(build_note(&update(1, true), Some(300)).unwrap(), "ttl=300s");
    assert_eq!(build_note(&update(1, true), None), None);
    let only_upnp = PortUpdateResult { detected_port: 1, verified: true, random_port: Some(false), upnp: Some(true) };
    assert_eq!(build_note(&only_upnp, None).unwrap(), "upnp still enabled");
}

#[test]
fn outcomes_carry_labels() {
    let f = file_outcome(&update(51820, true));
    assert_eq!(f.strategy, "file");
    assert_eq!(f.detected_port, Some(51820));
    let m = MapResult { external_port: 40000, ttl: Some(60), strategy: Strategy::NatPmp };
    let o = mapping_outcome(PortmapMode::Auto, &m, &update(40000, false));
    assert_eq!(o.strategy, "natpmp");
    assert!(!o.verified);
    assert_eq!(o.note.unwrap(), "ttl=60s");
    let p = mapping_outcome(PortmapMode::PcpOnly, &m, &update(40000, true));
    assert_eq!(p.strategy, "pcp");
}

#[test]
fn mapping_daemon_cycle() {
    let mut e = PortSyncEngine::new(&StrategyPlan::Portmap { mode: PortmapMode::Auto }, 300);
    assert!(matches!(e.pending_action(), EngineAction::Negotiate(PortmapMode::Auto)));
    let m = MapResult { external_port: 40000, ttl: Some(120), strategy: Strategy::Pcp };
    assert!(matches!(e.step(EngineEvent::Mapped(m)), EngineAction::Apply(40000)));
    assert!(matches!(e.step(EngineEvent::Applied(update(40000, true))), EngineAction::Sleep(60)));
    assert!(e.healthy);
    assert_eq!(e.last_port, Some(40000));
    assert!(matches!(e.step(EngineEvent::WakeUp), EngineAction::Negotiate(PortmapMode::Auto)));
    let failed = e.step(EngineEvent::MappingFailed(SyncError::Other("timeout".into())));
    assert!(matches!(failed, EngineAction::Sleep(300)));
    assert!(!e.healthy);
    assert!(matches!(e.step(EngineEvent::Cancelled), EngineAction::Stop));
    assert_eq!(e.state, EngineState::Stopped);
    assert!(matches!(e.step(EngineEvent::WakeUp), EngineAction::Stop));
}

#[test]
fn applying_the_same_port_twice_is_stable() {
    let mut e = PortSyncEngine::new(&StrategyPlan::File { path: "/x/forwarded_port".into() }, 300);
    assert_eq!(e.source, PortSource::File);
    assert!(matches!(e.step(EngineEvent::PortSeen(51413)), EngineAction::Apply(51413)));
    assert!(matches!(e.step(EngineEvent::Applied(update(51413, true))), EngineAction::AwaitFileChange));
    let first = e;
    assert!(matches!(e.step(EngineEvent::PortSeen(51413)), EngineAction::Apply(51413)));
    assert!(matches!(e.step(EngineEvent::Applied(update(51413, true))), EngineAction::AwaitFileChange));
    assert_eq!(e, first);
    assert_eq!(e.last_port, Some(51413));
}

#[test]
fn unverified_apply_is_not_a_failure() {
    let mut e = PortSyncEngine::new(&StrategyPlan::File { path: "/x/p".into() }, 300);
    e.step(EngineEvent::PortSeen(1000));
    assert!(matches!(e.step(EngineEvent::Applied(update(2000, false))), EngineAction::AwaitFileChange));
    assert!(e.healthy);
    assert_eq!(e.last_port, Some(2000));
}

#[test]
fn fatal_failures_stop_the_daemon() {
    let mut e = PortSyncEngine::new(&StrategyPlan::File { path: "/x/p".into() }, 300);
    e.step(EngineEvent::PortSeen(1000));
    let a = e.step(EngineEvent::ApplyFailed(SyncError::Qbit(QbitError::Auth("Fails.".into()))));
    assert!(matches!(a, EngineAction::Abort(_)));
    assert_eq!(e.state, EngineState::Stopped);

    let mut m = PortSyncEngine::new(&StrategyPlan::Portmap { mode: PortmapMode::NatOnly }, 60);
    let a = m.step(EngineEvent::MappingFailed(SyncError::Config(ConfigError::MissingGateway)));
    assert!(matches!(a, EngineAction::Abort(_)));

    let mut t = PortSyncEngine::new(&StrategyPlan::File { path: "/x/p".into() }, 300);
    t.step(EngineEvent::PortSeen(1000));
    let a = t.step(EngineEvent::ApplyFailed(SyncError::Qbit(QbitError::UnexpectedResponse {
        status: 500,
        message: String::new(),
    })));
    assert!(matches!(a, EngineAction::AwaitFileChange));
    assert!(!t.healthy);
}

#[test]
fn unexpected_events_are_ignored() {
    let mut e = PortSyncEngine::new(&StrategyPlan::Portmap { mode: PortmapMode::PcpOnly }, 300);
    assert!(matches!(e.step(EngineEvent::PortSeen(5)), EngineAction::Negotiate(PortmapMode::PcpOnly)));
    assert_eq!(e.state, EngineState::Negotiating);
}
