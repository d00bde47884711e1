use bond_config::bond::{BondConfig, BondMode};
use bond_config::monitoring::{ArpMonConfig, ArpValidate, BondMonitoring, IpAddress, MiiMonConfig};
use bond_config::wire::{
    check_kind, check_lowered_kind, parse_arp_validate, parse_bond, parse_mode, parse_monitoring, BondTable,
    MonitoringTable,
};

fn mii_table(frequency: u32, updelay: u32, downdelay: u32) -> MonitoringTable {
    MonitoringTable {
        miimon_frequency_ms: Some(frequency),
        miimon_updelay_ms: Some(updelay),
        miimon_downdelay_ms: Some(downdelay),
        arpmon_interval_ms: None,
        arpmon_validate: None,
        arpmon_targets: None,
        other_keys: Vec::new(),
    }
}

fn bond_table(kind: &str, mode: &str) -> BondTable {
    BondTable {
        primary: Some(true),
        kind: Some(kind.to_string()),
        mode: Some(mode.to_string()),
        min_links: Some(1),
        monitoring: Some(mii_table(100, 200, 200)),
        interfaces: Some(vec!["eth0".to_string(), "eth1".to_string()]),
        other_keys: Vec::new(),
    }
}

#[test]
fn wrong_kind() {
    let e = parse_bond(bond_table("bridge", "active-backup")).unwrap_err();
    assert!(e.message().contains("does not match 'bond'"));
    assert_eq!(e.message(), "kind of 'bridge' does not match 'bond'");
}

#[test]
fn kind_any_case() {
    for kind in ["bond", "Bond", "BOND", "bOnD"] {
        assert!(check_kind(kind).is_ok(), "{kind}");
    }
    assert!(check_kind("bonds").is_err());
    assert!(check_kind("").is_err());
}

#[test]
fn lowered_kind_decides() {
    assert!(check_lowered_kind("BOND", "bond").is_ok());
    let e = check_lowered_kind("BOND", "BOND").unwrap_err();
    assert_eq!(e.message(), "kind of 'BOND' does not match 'bond'");
}

#[test]
fn new_checks_kind() {
    let m = BondMonitoring::MiiMon(MiiMonConfig { frequency: 1, updelay: 1, downdelay: 1 });
    let e = BondConfig::new(None, "vlan".to_string(), BondMode::ActiveBackup, None, m.clone(), vec![])
        .unwrap_err();
    assert_eq!(e.message(), "kind of 'vlan' does not match 'bond'");
    let c = BondConfig::new(Some(false), "Bond".to_string(), BondMode::ActiveBackup, None, m, vec![]).unwrap();
    assert_eq!(c.kind, "Bond");
    assert_eq!(c.primary, Some(false));
}

#[test]
fn mode_tags() {
    assert_eq!(parse_mode("active-backup").unwrap(), BondMode::ActiveBackup);
    let e = parse_mode("Active-Backup").unwrap_err();
    assert_eq!(e.message(), "unknown variant `Active-Backup`, expected `active-backup`");
    assert!(parse_mode("balance-rr").is_err());
    assert!(parse_bond(bond_table("bond", "802.3ad")).is_err());
    assert_eq!(BondMode::ActiveBackup.tag(), "active-backup");
}

#[test]
fn arp_validate_tags() {
    for v in [ArpValidate::Active, ArpValidate::All, ArpValidate::Backup, ArpValidate::NoValidation] {
        assert_eq!(parse_arp_validate(v.tag()).unwrap(), v);
    }
    assert_eq!(ArpValidate::NoValidation.tag(), "none");
    assert_eq!(parse_arp_validate("all").unwrap(), ArpValidate::All);
    let e = parse_arp_validate("ALL").unwrap_err();
    assert_eq!(e.message(), "unknown variant `ALL`, expected one of `active`, `all`, `backup`, `none`");
}

#[test]
fn mixed_families_rejected() {
    let mut t = mii_table(100, 200, 200);
    t.arpmon_interval_ms = Some(500);
    let e = parse_monitoring(t).unwrap_err();
    assert_eq!(e.message(), "unknown field `arpmon-interval-ms`");
    let mut t = mii_table(100, 200, 200);
    t.arpmon_targets = Some(vec![]);
    assert_eq!(parse_monitoring(t).unwrap_err().message(), "unknown field `arpmon-targets`");
}

#[test]
fn unknown_monitoring_key_named() {
    let mut t = mii_table(100, 200, 200);
    t.other_keys.push("minlinks".to_string());
    assert_eq!(parse_monitoring(t).unwrap_err().message(), "unknown field `minlinks`");
    let mut b = bond_table("bond", "active-backup");
    let mut m = mii_table(100, 200, 200);
    m.other_keys.push("foo".to_string());
    b.monitoring = Some(m);
    let e = parse_bond(b).unwrap_err();
    assert!(e.message().contains("foo"));
}

#[test]
fn empty_monitoring_table_rejected() {
    let mut t = mii_table(1, 1, 1);
    t.miimon_frequency_ms = None;
    t.miimon_updelay_ms = None;
    t.miimon_downdelay_ms = None;
    assert_eq!(
        parse_monitoring(t).unwrap_err().message(),
        "monitoring needs either the miimon-* or the arpmon-* keys"
    );
}

#[test]
fn incomplete_or_unknown_monitoring_rejected() {
    let mut t = mii_table(100, 200, 200);
    t.miimon_downdelay_ms = None;
    assert_eq!(parse_monitoring(t).unwrap_err().message(), "missing field `miimon-downdelay-ms`");
    let t = MonitoringTable {
        miimon_frequency_ms: None,
        miimon_updelay_ms: None,
        miimon_downdelay_ms: None,
        arpmon_interval_ms: Some(500),
        arpmon_validate: None,
        arpmon_targets: Some(vec![IpAddress::V4([10, 0, 0, 1])]),
        other_keys: Vec::new(),
    };
    assert_eq!(parse_monitoring(t).unwrap_err().message(), "missing field `arpmon-validate`");
    let mut t = mii_table(100, 200, 200);
    t.other_keys.push("miimon-extra".to_string());
    assert_eq!(parse_monitoring(t).unwrap_err().message(), "unknown field `miimon-extra`");
}

#[test]
fn monitoring_families_chosen() {
    match parse_monitoring(mii_table(100, 200, 300)).unwrap() {
        BondMonitoring::MiiMon(c) => assert_eq!(c, MiiMonConfig { frequency: 100, updelay: 200, downdelay: 300 }),
        _ => panic!("expected MII monitoring"),
    }
    let t = MonitoringTable {
        miimon_frequency_ms: None,
        miimon_updelay_ms: None,
        miimon_downdelay_ms: None,
        arpmon_interval_ms: Some(500),
        arpmon_validate: Some(ArpValidate::Backup),
        arpmon_targets: Some(vec![IpAddress::V4([192, 168, 0, 1])]),
        other_keys: Vec::new(),
    };
    match parse_monitoring(t).unwrap() {
        BondMonitoring::ArpMon(c) => {
            assert_eq!(c.interval, 500);
            assert_eq!(c.validate, ArpValidate::Backup);
            assert_eq!(c.targets, vec![IpAddress::V4([192, 168, 0, 1])]);
        }
        _ => panic!("expected ARP monitoring"),
    }
}

#[test]
fn unknown_and_missing_top_level_keys() {
    let mut t = bond_table("bond", "active-backup");
    t.other_keys.push("vlan-id".to_string());
    assert_eq!(parse_bond(t).unwrap_err().message(), "unknown field `vlan-id`");
    let mut t = bond_table("bond", "active-backup");
    t.interfaces = None;
    assert_eq!(parse_bond(t).unwrap_err().message(), "missing field `interfaces`");
}

#[test]
fn read_then_validate_happy_path() {
    let c = parse_bond(bond_table("BOND", "active-backup")).unwrap();
    assert_eq!(c.interfaces, vec!["eth0".to_string(), "eth1".to_string()]);
    assert_eq!(c.min_links, Some(1));
    assert!(c.validate().is_ok());
}

#[test]
fn round_trip() {
    let targets = vec![IpAddress::V4([10, 0, 0, 1]), IpAddress::V6([0xfe80, 0, 0, 0, 0, 0, 0, 1])];
    let m = BondMonitoring::ArpMon(ArpMonConfig { interval: 250, validate: ArpValidate::Active, targets: targets.clone() });
    let c = BondConfig::new(Some(true), "bond".to_string(), BondMode::ActiveBackup, Some(2), m, vec!["a".to_string(), "b".to_string()]).unwrap();
    let back = parse_bond(c.clone().into_table()).unwrap();
    assert_eq!(back.kind, c.kind);
    assert_eq!(back.primary, Some(true));
    assert_eq!(back.mode, BondMode::ActiveBackup);
    assert_eq!(back.min_links, Some(2));
    assert_eq!(back.interfaces, c.interfaces);
    match back.monitoring_config {
        BondMonitoring::ArpMon(a) => {
            assert_eq!(a.interval, 250);
            assert_eq!(a.validate, ArpValidate::Active);
            assert_eq!(a.targets, targets);
        }
        _ => panic!("expected ARP monitoring"),
    }
}
