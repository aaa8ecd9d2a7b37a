use check_ethernet::facts::{InterfaceState, FactsError, Address};

fn s(v: &str) -> Option<String> {
    Some(v.to_string())
}

#[test]
fn all_attributes_read_and_trimmed() {
    let f = InterfaceState::new(s("up\n"), s("full\n"), s("1500\n"), s("1000\n"), Vec::new())
        .unwrap();
    assert!(f.present);
    assert_eq!(f.operstate, "up");
    assert_eq!(f.duplex, "full");
    assert_eq!(f.mtu, 1500);
    assert_eq!(f.speed, 1000);
}

#[test]
fn unreadable_operstate_means_not_present() {
    let f = InterfaceState::new(None, s("full"), s("1500"), s("1000"), Vec::new()).unwrap();
    assert!(!f.present);
    assert_eq!(f.operstate, "unknown");
    assert_eq!(f.duplex, "unknown");
    assert_eq!(f.mtu, -1);
    assert_eq!(f.speed, -1);
}

#[test]
fn unreadable_duplex_means_not_present() {
    let f = InterfaceState::new(s("up\n"), None, s("1500"), s("1000"), Vec::new()).unwrap();
    assert!(!f.present);
    assert_eq!(f.operstate, "up");
    assert_eq!(f.duplex, "unknown");
}

#[test]
fn unreadable_speed_keeps_mtu() {
    let f = InterfaceState::new(s("up\n"), s("full\n"), s("1500\n"), None, Vec::new()).unwrap();
    assert!(!f.present);
    assert_eq!(f.mtu, 1500);
    assert_eq!(f.speed, -1);
}

#[test]
fn malformed_mtu_is_fatal() {
    let e = InterfaceState::new(s("up\n"), s("full\n"), s("abc\n"), s("1000\n"), Vec::new())
        .unwrap_err();
    assert_eq!(e, FactsError::MtuNotInteger);
    assert_eq!(e.message(), "Can't convert reported MTU to an integer");
}

#[test]
fn malformed_speed_is_fatal() {
    let e = InterfaceState::new(s("up\n"), s("full\n"), s("1500\n"), s("x\n"), Vec::new())
        .unwrap_err();
    assert_eq!(e, FactsError::SpeedNotInteger);
    assert_eq!(e.message(), "Can't convert reported link speed to an integer");
}

#[test]
fn ipv4_link_local_classification() {
    assert!(Address::v4_from_octets(169, 254, 1, 1).is_link_local());
    assert!(Address::v4_from_octets(169, 254, 255, 255).is_link_local());
    assert!(!Address::v4_from_octets(169, 253, 1, 1).is_link_local());
    assert!(!Address::v4_from_octets(10, 0, 0, 1).is_link_local());
    assert!(!Address::v4_from_octets(192, 168, 1, 1).is_link_local());
}

#[test]
fn ipv6_link_local_classification() {
    assert!(Address::v6_from_segments([0xfe80, 0, 0, 0, 0, 0, 0, 1]).is_link_local());
    assert!(Address::v6_from_segments([0xfebf, 0, 0, 0, 0, 0, 0, 1]).is_link_local());
    assert!(!Address::v6_from_segments([0xfec0, 0, 0, 0, 0, 0, 0, 1]).is_link_local());
    assert!(!Address::v6_from_segments([0x2001, 0xdb8, 0, 0, 0, 0, 0, 1]).is_link_local());
}
