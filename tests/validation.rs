use bond_config::bond::{BondConfig, BondMode};
use bond_config::error::ConfigError;
use bond_config::monitoring::{ArpMonConfig, ArpValidate, BondMonitoring, IpAddress, MiiMonConfig};

fn mii(frequency: u32, updelay: u32, downdelay: u32) -> BondMonitoring {
    BondMonitoring::MiiMon(MiiMonConfig { frequency, updelay, downdelay })
}

fn arp(interval: u32, targets: usize) -> BondMonitoring {
    let targets = (0..targets).map(|i| IpAddress::V4([10, 0, 0, i as u8])).collect();
    BondMonitoring::ArpMon(ArpMonConfig { interval, validate: ArpValidate::All, targets })
}

fn bond(interfaces: &[&str], min_links: Option<usize>, monitoring: BondMonitoring) -> BondConfig {
    BondConfig::new(
        None,
        "bond".to_string(),
        BondMode::ActiveBackup,
        min_links,
        monitoring,
        interfaces.iter().map(|s| s.to_string()).collect(),
    )
    .unwrap()
}

fn reason(r: Result<(), ConfigError>) -> String {
    r.unwrap_err().reason().to_string()
}

#[test]
fn happy_path_mii() {
    let c = bond(&["eth0", "eth1"], Some(1), mii(100, 200, 200));
    assert!(c.validate().is_ok());
}

#[test]
fn min_links_too_high() {
    let c = bond(&["eth0", "eth1"], Some(3), mii(100, 200, 200));
    assert!(reason(c.validate()).contains("min-links is greater than number of interfaces"));
}

#[test]
fn min_links_equal_to_interface_count() {
    let c = bond(&["eth0", "eth1"], Some(2), mii(100, 200, 200));
    assert!(c.validate().is_ok());
}

#[test]
fn empty_interfaces() {
    let c = bond(&[], Some(1), mii(100, 200, 200));
    let r = reason(c.validate());
    assert!(r.contains("1 or more interfaces"));
    assert_eq!(r, "bonds must have 1 or more interfaces specified");
}

#[test]
fn empty_interfaces_reported_before_monitoring() {
    let c = bond(&[], None, mii(0, 0, 0));
    assert!(reason(c.validate()).contains("1 or more interfaces"));
}

#[test]
fn mii_frequency_zero() {
    let c = bond(&["eth0", "eth1"], None, mii(0, 100, 100));
    assert!(reason(c.validate()).contains("miimon-frequency-ms of 0"));
}

#[test]
fn mii_delay_below_frequency() {
    let c = bond(&["eth0"], None, mii(100, 50, 200));
    assert_eq!(
        reason(c.validate()),
        "miimon-updelay-ms and miimon-downdelay-ms must be equal to or larger than miimon-frequency-ms"
    );
    let c = bond(&["eth0"], None, mii(100, 200, 99));
    assert!(reason(c.validate()).contains("must be equal to or larger"));
}

#[test]
fn mii_delays_equal_to_frequency() {
    let c = bond(&["eth0"], None, mii(100, 100, 100));
    assert!(c.validate().is_ok());
}

#[test]
fn arp_zero_targets() {
    let c = bond(&["eth0", "eth1"], None, arp(500, 0));
    assert!(reason(c.validate()).contains("between 1 and 16 targets"));
}

#[test]
fn arp_seventeen_targets() {
    let c = bond(&["eth0", "eth1"], None, arp(500, 17));
    assert_eq!(reason(c.validate()), "arpmon-targets must include between 1 and 16 targets");
}

#[test]
fn arp_one_and_sixteen_targets() {
    assert!(bond(&["eth0"], None, arp(500, 1)).validate().is_ok());
    assert!(bond(&["eth0"], None, arp(500, 16)).validate().is_ok());
}

#[test]
fn arp_interval_zero() {
    let c = bond(&["eth0"], None, arp(0, 2));
    assert!(reason(c.validate()).contains("arpmon-interval-ms of 0"));
}

#[test]
fn addressing_error_comes_first() {
    let c = bond(&[], None, mii(0, 0, 0));
    let r = c.validate_after_addressing(Err(ConfigError::invalid("no addressing")));
    assert_eq!(reason(r), "no addressing");
    let c = bond(&["eth0"], None, mii(100, 100, 100));
    assert!(c.validate_after_addressing(Ok(())).is_ok());
}
