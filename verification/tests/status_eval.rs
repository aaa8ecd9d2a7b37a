use check_ethernet::config::{Configuration, Duplex, AddressCheck};
use check_ethernet::facts::{InterfaceState, Address};
use check_ethernet::status::NagiosStatus;

fn cfg(
    mtu: Option<i32>,
    speed: Option<i32>,
    duplex: Duplex,
    escalate: bool,
    addr: AddressCheck,
) -> Configuration {
    Configuration {
        interface: "eth0".to_string(),
        expected_mtu: mtu,
        expected_speed: speed,
        expected_duplex: duplex,
        escalate_to_critical: escalate,
        address_check: addr,
    }
}

fn facts(present: bool, operstate: &str, speed: i32, duplex: &str, mtu: i32) -> InterfaceState {
    InterfaceState {
        present,
        speed,
        mtu,
        operstate: operstate.to_string(),
        duplex: duplex.to_string(),
        ips: Vec::new(),
    }
}

#[test]
fn all_expectations_met() {
    let c = cfg(Some(1500), Some(1000), Duplex::Full, false, AddressCheck::Disabled);
    let f = facts(true, "up", 1000, "full", 1500);
    let st = NagiosStatus::new(&c, &f);
    assert_eq!(
        st.ok,
        vec![
            "Interface is up".to_string(),
            "Negotiated interface speed is 1000 MBit/s".to_string(),
            "Negotiated duplex mode is full".to_string(),
            "MTU size is 1500".to_string(),
        ]
    );
    assert!(st.critical.is_empty());
    assert!(st.warning.is_empty());
    assert!(st.unknown.is_empty());
    let (line, code) = st.report();
    assert_eq!(code, 0);
    assert_eq!(
        line.unwrap(),
        "Interface is up, Negotiated interface speed is 1000 MBit/s, \
         Negotiated duplex mode is full, MTU size is 1500"
    );
}

#[test]
fn speed_below_is_a_warning() {
    let c = cfg(None, Some(1000), Duplex::Full, false, AddressCheck::Disabled);
    let f = facts(true, "up", 100, "full", 1500);
    let st = NagiosStatus::new(&c, &f);
    assert_eq!(
        st.warning,
        vec![
            "Negotiated interface speed (100 MBit/s) is below requested interface speed \
             (1000 MBit/s)"
                .to_string()
        ]
    );
    let (line, code) = st.report();
    assert_eq!(code, 1);
    assert_eq!(
        line.unwrap(),
        "Negotiated interface speed (100 MBit/s) is below requested interface speed (1000 MBit/s)"
    );
}

#[test]
fn speed_below_escalates_to_critical() {
    let c = cfg(None, Some(1000), Duplex::Full, true, AddressCheck::Disabled);
    let f = facts(true, "up", 100, "full", 1500);
    let st = NagiosStatus::new(&c, &f);
    assert_eq!(
        st.critical,
        vec![
            "Negotiated interface speed (100 MBit/s) is below requested interface speed \
             (1000 MBit/s)"
                .to_string()
        ]
    );
    assert!(st.warning.is_empty());
    let (_, code) = st.report();
    assert_eq!(code, 2);
}

#[test]
fn absent_interface_is_critical() {
    let c = cfg(Some(1500), Some(1000), Duplex::Full, false, AddressCheck::Both);
    let f = facts(false, "up", 1000, "full", 1500);
    let st = NagiosStatus::new(&c, &f);
    assert_eq!(st.critical, vec!["Interface is not present".to_string()]);
    assert!(st.warning.is_empty());
    assert!(st.ok.is_empty());
    assert!(st.unknown.is_empty());
    let (line, code) = st.report();
    assert_eq!(code, 2);
    assert_eq!(line.unwrap(), "Interface is not present");
}

#[test]
fn unexpected_operstate_is_unknown() {
    let c = cfg(Some(1500), Some(1000), Duplex::Full, false, AddressCheck::Disabled);
    let f = facts(true, "unknown-state", 1000, "full", 1500);
    let st = NagiosStatus::new(&c, &f);
    assert_eq!(st.unknown, vec!["Interface is unknown-state".to_string()]);
    assert!(st.critical.is_empty());
    assert!(st.warning.is_empty());
    assert!(st.ok.is_empty());
    let (line, code) = st.report();
    assert_eq!(code, 3);
    assert_eq!(line.unwrap(), "Interface is unknown-state");
}

#[test]
fn only_link_local_ipv4_is_critical() {
    let c = cfg(None, None, Duplex::Full, false, AddressCheck::Ipv4);
    let mut f = facts(true, "up", 1000, "full", 1500);
    f.ips = vec![Address::v4_from_octets(169, 254, 1, 1)];
    let st = NagiosStatus::new(&c, &f);
    assert_eq!(
        st.critical,
        vec!["Only link local address(es) are assigned".to_string()]
    );
    let (line, code) = st.report();
    assert_eq!(code, 2);
    assert_eq!(line.unwrap(), "Only link local address(es) are assigned");
}

#[test]
fn interface_down_shadows_everything() {
    let c = cfg(Some(1500), Some(1000), Duplex::Half, true, AddressCheck::Both);
    let f = facts(true, "down", 5, "weird", -3);
    let st = NagiosStatus::new(&c, &f);
    assert_eq!(st.critical, vec!["Interface is DOWN".to_string()]);
    assert!(st.warning.is_empty());
    assert!(st.ok.is_empty());
    assert!(st.unknown.is_empty());
    let (_, code) = st.report();
    assert_eq!(code, 2);
}

#[test]
fn unexpected_state_ignores_other_facts() {
    let c = cfg(Some(1500), Some(1000), Duplex::Full, false, AddressCheck::Both);
    let f1 = facts(true, "dormant", 10, "half", 100);
    let f2 = facts(true, "dormant", 9999, "full", 1500);
    let s1 = NagiosStatus::new(&c, &f1);
    let s2 = NagiosStatus::new(&c, &f2);
    assert_eq!(s1.unknown, s2.unknown);
    assert_eq!(s1.critical, s2.critical);
    assert_eq!(s1.warning, s2.warning);
    assert_eq!(s1.ok, s2.ok);
}

#[test]
fn unknown_bucket_takes_precedence() {
    let c = cfg(Some(9000), Some(1000), Duplex::Full, false, AddressCheck::Disabled);
    let f = facts(true, "up", 1000, "weird", 1500);
    let st = NagiosStatus::new(&c, &f);
    assert_eq!(st.unknown, vec!["Unknown duplex mode weird".to_string()]);
    assert_eq!(
        st.warning,
        vec!["MTU size of 1500 does not match requested MTU size of 9000".to_string()]
    );
    let (line, code) = st.report();
    assert_eq!(code, 3);
    assert_eq!(line.unwrap(), "Unknown duplex mode weird");
}

#[test]
fn speed_above_stays_warning_under_escalation() {
    let c = cfg(None, Some(1000), Duplex::Full, true, AddressCheck::Disabled);
    let f = facts(true, "up", 10000, "full", 1500);
    let st = NagiosStatus::new(&c, &f);
    assert_eq!(
        st.warning,
        vec![
            "Negotiated interface speed (10000 MBit/s) is greater than requested interface \
             speed (1000 MBit/s)"
                .to_string()
        ]
    );
    assert!(st.critical.is_empty());
    let (_, code) = st.report();
    assert_eq!(code, 1);
}

#[test]
fn escalation_keeps_message_text() {
    let warn_cfg = cfg(Some(9000), Some(1000), Duplex::Half, false, AddressCheck::Disabled);
    let crit_cfg = cfg(Some(9000), Some(1000), Duplex::Half, true, AddressCheck::Disabled);
    let f = facts(true, "up", 100, "full", 1500);
    let st_warn = NagiosStatus::new(&warn_cfg, &f);
    let st_crit = NagiosStatus::new(&crit_cfg, &f);
    assert_eq!(st_warn.warning.len(), 3);
    assert_eq!(st_crit.critical.len(), 3);
    assert_eq!(st_warn.warning, st_crit.critical);
}

#[test]
fn disabled_mtu_check_leaves_no_mtu_message() {
    let c = cfg(None, Some(1000), Duplex::Full, false, AddressCheck::Both);
    let f = facts(true, "up", 100, "half", 123);
    let st = NagiosStatus::new(&c, &f);
    for bucket in [&st.critical, &st.warning, &st.ok, &st.unknown] {
        for m in bucket {
            assert!(!m.contains("MTU"));
        }
    }
}

#[test]
fn disabled_speed_check_leaves_no_speed_or_duplex_message() {
    let c = cfg(Some(1500), None, Duplex::Full, false, AddressCheck::Disabled);
    let f = facts(true, "up", 100, "weird", 1500);
    let st = NagiosStatus::new(&c, &f);
    assert_eq!(
        st.ok,
        vec!["Interface is up".to_string(), "MTU size is 1500".to_string()]
    );
    assert!(st.unknown.is_empty());
    assert!(st.warning.is_empty());
}

#[test]
fn address_check_no_address_in_scope() {
    let c = cfg(None, None, Duplex::Full, false, AddressCheck::Ipv6);
    let mut f = facts(true, "up", 1000, "full", 1500);
    f.ips = vec![Address::v4_from_octets(10, 0, 0, 1)];
    let st = NagiosStatus::new(&c, &f);
    assert_eq!(st.critical, vec!["No IP address assigned".to_string()]);
}

#[test]
fn address_check_non_link_local_is_ok() {
    let c = cfg(None, None, Duplex::Full, false, AddressCheck::Both);
    let mut f = facts(true, "up", 1000, "full", 1500);
    f.ips = vec![
        Address::v4_from_octets(169, 254, 1, 1),
        Address::v4_from_octets(192, 168, 0, 2),
    ];
    let st = NagiosStatus::new(&c, &f);
    assert_eq!(st.ok.last().unwrap(), "Non link local address(es) assigned");
    assert!(st.critical.is_empty());
    let (_, code) = st.report();
    assert_eq!(code, 0);
}

#[test]
fn empty_result_reports_unknown_without_line() {
    let st = NagiosStatus {
        critical: Vec::new(),
        warning: Vec::new(),
        ok: Vec::new(),
        unknown: Vec::new(),
    };
    let (line, code) = st.report();
    assert!(line.is_none());
    assert_eq!(code, 3);
}

#[test]
fn duplex_mismatch_message() {
    let c = cfg(None, Some(1000), Duplex::Half, false, AddressCheck::Disabled);
    let f = facts(true, "up", 1000, "full", 1500);
    let st = NagiosStatus::new(&c, &f);
    assert_eq!(
        st.warning,
        vec!["Negotiated duplex mode is full instead of half".to_string()]
    );
}
