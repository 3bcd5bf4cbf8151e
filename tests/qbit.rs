use qb_port_sync::error::{QbitError, SyncError};
use qb_port_sync::qbit::{
    login_result, matches_interface, port_preferences, response_result, select_interface,
    update_result, InterfaceSelection, NetworkInterfaceItem, PreferenceValue,
};

#[test]
fn interface_match_handles_aliases() {
    let item = NetworkInterfaceItem {
        name: "tun0".into(),
        interface: Some("tun0".into()),
        id: Some("{1234}".into()),
    };
    assert!(matches_interface(&item, "tun0"));
    assert!(matches_interface(&item, "{1234}"));
    assert!(!matches_interface(&item, "eth0"));
}

#[test]
fn blank_interface_requests_match_nothing() {
    let item = NetworkInterfaceItem { name: "".into(), interface: None, id: None };
    assert!(!matches_interface(&item, "   "));
    let named = NetworkInterfaceItem { name: "wg0".into(), interface: None, id: None };
    assert!(matches_interface(&named, " wg0 "));
}

#[test]
fn selects_the_first_matching_interface() {
    let items = vec![
        NetworkInterfaceItem { name: "eth0".into(), interface: None, id: None },
        NetworkInterfaceItem { name: "VPN".into(), interface: Some("tun0".into()), id: None },
        NetworkInterfaceItem { name: "tun0".into(), interface: None, id: Some("{9}".into()) },
    ];
    let sel = select_interface(&items, "tun0").unwrap();
    assert_eq!(sel.name, "VPN");
    assert_eq!(sel.id, Some("tun0".to_string()));
    assert!(select_interface(&items, "wlan0").is_none());
}

#[test]
fn preferences_fix_the_port() {
    let prefs = port_preferences(51413, None);
    assert_eq!(prefs.len(), 3);
    assert_eq!(prefs[0].key, "listen_port");
    assert!(matches!(prefs[0].value, PreferenceValue::Number(51413)));
    assert!(matches!(prefs[1].value, PreferenceValue::Flag(false)));
    assert_eq!(prefs[2].key, "upnp");
    let bound = port_preferences(
        1,
        Some(InterfaceSelection { name: "VPN".into(), id: Some("tun0".into()) }),
    );
    assert_eq!(bound.len(), 5);
    assert_eq!(bound[3].key, "network_interface");
    assert_eq!(bound[4].key, "network_interface_id");
}

#[test]
fn update_is_verified_only_on_the_requested_port() {
    let ok = update_result(51413, Some(51413), Some(false), Some(false)).unwrap();
    assert!(ok.verified);
    assert_eq!(ok.detected_port, 51413);
    let other = update_result(51413, Some(6881), None, Some(true)).unwrap();
    assert!(!other.verified);
    assert_eq!(other.detected_port, 6881);
    assert!(update_result(1, None, None, None).is_err());
    assert!(update_result(1, Some(70000), None, None).is_err());
}

#[test]
fn login_answers() {
    assert!(login_result(true, 200, "Ok.\n".into()).is_ok());
    match login_result(true, 200, "Fails.".into()) {
        Err(SyncError::Qbit(QbitError::Auth(body))) => assert_eq!(body, "Fails."),
        other => panic!("unexpected {:?}", other),
    }
    match login_result(false, 403, "Forbidden".into()) {
        Err(e) => assert_eq!(e.describe(), "unexpected response status: 403 Forbidden"),
        Ok(()) => panic!("a failed status must not log in"),
    }
    assert!(response_result(true, 200, String::new()).is_ok());
    assert!(response_result(false, 500, "x".into()).is_err());
}
