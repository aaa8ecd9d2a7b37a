use check_ethernet::config::{Configuration, ConfigError, Duplex, AddressCheck};

fn s(v: &str) -> Option<String> {
    Some(v.to_string())
}

#[test]
fn defaults_when_only_interface_given() {
    let c = Configuration::new(s("eth0"), None, None, false, None).unwrap();
    assert_eq!(c.interface, "eth0");
    assert_eq!(c.expected_mtu, None);
    assert_eq!(c.expected_speed, Some(1000));
    assert_eq!(c.expected_duplex, Duplex::Full);
    assert!(!c.escalate_to_critical);
    assert_eq!(c.address_check, AddressCheck::Disabled);
}

#[test]
fn mtu_parsed_and_sentinel_disables() {
    let c = Configuration::new(s("eth0"), s("1500"), None, false, None).unwrap();
    assert_eq!(c.expected_mtu, Some(1500));
    let c = Configuration::new(s("eth0"), s("0"), None, false, None).unwrap();
    assert_eq!(c.expected_mtu, None);
    let c = Configuration::new(s("eth0"), s("-5"), None, false, None).unwrap();
    assert_eq!(c.expected_mtu, None);
}

#[test]
fn bad_mtu_is_an_error() {
    let e = Configuration::new(s("eth0"), s("abc"), None, false, None).unwrap_err();
    assert_eq!(e, ConfigError::MtuNotInteger);
    assert_eq!(e.message(), "Can't convert MTU to an integer");
}

#[test]
fn state_speed_only() {
    let c = Configuration::new(s("eth0"), None, s("100"), false, None).unwrap();
    assert_eq!(c.expected_speed, Some(100));
    assert_eq!(c.expected_duplex, Duplex::Full);
}

#[test]
fn state_speed_and_mode() {
    let c = Configuration::new(s("eth0"), None, s("100:half"), false, None).unwrap();
    assert_eq!(c.expected_speed, Some(100));
    assert_eq!(c.expected_duplex, Duplex::Half);
}

#[test]
fn state_empty_speed_keeps_default() {
    let c = Configuration::new(s("eth0"), None, s(":half"), false, None).unwrap();
    assert_eq!(c.expected_speed, Some(1000));
    assert_eq!(c.expected_duplex, Duplex::Half);
}

#[test]
fn state_nonpositive_speed_disables_check() {
    let c = Configuration::new(s("eth0"), None, s("0:full"), false, None).unwrap();
    assert_eq!(c.expected_speed, None);
    let c = Configuration::new(s("eth0"), None, s("-1"), false, None).unwrap();
    assert_eq!(c.expected_speed, None);
}

#[test]
fn bad_state_is_an_error() {
    let e = Configuration::new(s("eth0"), None, s("a:b:c"), false, None).unwrap_err();
    assert_eq!(e, ConfigError::InvalidLinkMode);
    assert_eq!(e.message(), "Invalid link mode");
    let e = Configuration::new(s("eth0"), None, s("xx"), false, None).unwrap_err();
    assert_eq!(e, ConfigError::SpeedNotInteger);
    assert_eq!(e.message(), "Can't convert link speed to an integer");
    let e = Configuration::new(s("eth0"), None, s("1000:weird"), false, None).unwrap_err();
    assert_eq!(e, ConfigError::InvalidLinkMode);
}

#[test]
fn address_check_classes() {
    let c = Configuration::new(s("eth0"), None, None, false, s("ip")).unwrap();
    assert_eq!(c.address_check, AddressCheck::Both);
    let c = Configuration::new(s("eth0"), None, None, false, s("ipv4")).unwrap();
    assert_eq!(c.address_check, AddressCheck::Ipv4);
    let c = Configuration::new(s("eth0"), None, None, false, s("ipv6")).unwrap();
    assert_eq!(c.address_check, AddressCheck::Ipv6);
    let c = Configuration::new(s("eth0"), None, None, false, s("")).unwrap();
    assert_eq!(c.address_check, AddressCheck::Disabled);
    let e = Configuration::new(s("eth0"), None, None, false, s("bogus")).unwrap_err();
    assert_eq!(e, ConfigError::InvalidAddressType);
    assert_eq!(e.message(), "Invalid parameter for address assignment check");
}

#[test]
fn missing_interface_is_an_error() {
    let e = Configuration::new(None, None, None, false, None).unwrap_err();
    assert_eq!(e, ConfigError::MissingInterface);
    assert_eq!(e.message(), "Interface to check is mandatory");
    let e = Configuration::new(s(""), None, None, false, None).unwrap_err();
    assert_eq!(e, ConfigError::MissingInterface);
}

#[test]
fn mtu_error_takes_precedence_over_state_error() {
    let e = Configuration::new(s("eth0"), s("abc"), s("a:b:c"), false, None).unwrap_err();
    assert_eq!(e, ConfigError::MtuNotInteger);
}

#[test]
fn escalation_flag_is_kept() {
    let c = Configuration::new(s("eth0"), None, None, true, None).unwrap();
    assert!(c.escalate_to_critical);
}
