use rusty_arp::interfaces::{interface_names, resolve_interface, InterfaceEntry, ResolveError, ResolvedInterface};

fn snapshot() -> Vec<InterfaceEntry> {
    vec![
        InterfaceEntry { name: "lo".to_string(), mac: None, index: 1 },
        InterfaceEntry { name: "eth0".to_string(), mac: Some([2, 0, 0, 0, 0, 9]), index: 2 },
        InterfaceEntry { name: "eth0".to_string(), mac: Some([2, 0, 0, 0, 0, 7]), index: 3 },
    ]
}

#[test]
fn first_named_interface_is_chosen() {
    assert_eq!(
        resolve_interface(&snapshot(), &"eth0".to_string()),
        Ok(ResolvedInterface { position: 1, mac: [2, 0, 0, 0, 0, 9] })
    );
}

#[test]
fn unknown_interface_is_not_found() {
    assert_eq!(resolve_interface(&snapshot(), &"wlan0".to_string()), Err(ResolveError::NotFound));
    assert_eq!(resolve_interface(&Vec::new(), &"eth0".to_string()), Err(ResolveError::NotFound));
}

#[test]
fn interface_without_mac_is_refused() {
    assert_eq!(
        resolve_interface(&snapshot(), &"lo".to_string()),
        Err(ResolveError::MissingHardwareAddress)
    );
}

#[test]
fn names_are_listed_in_order() {
    assert_eq!(interface_names(&snapshot()), vec!["lo", "eth0", "eth0"]);
    assert!(interface_names(&Vec::new()).is_empty());
}
