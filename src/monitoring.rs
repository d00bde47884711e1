//! Link monitoring: MII polling or ARP probing, each with its own rules.
use crate::error::ConfigError;
use vstd::prelude::*;

verus! {

/// Largest number of ARP targets the kernel accepts for one bond.
pub const MAX_ARP_TARGETS: usize = 16;

/// An IP address, held as its octets (IPv4) or its 16-bit segments (IPv6).
#[derive(Clone, Copy, Debug, PartialEq, Eq, Hash)]
pub enum IpAddress {
    V4([u8; 4]),
    V6([u16; 8]),
}

/// Which slaves the ARP monitor validates replies on.
#[derive(Clone, Copy, Debug, PartialEq, Eq, Structural)]
pub enum ArpValidate {
    Active,
    All,
    Backup,
    /// Written `none`: replies are not validated.
    NoValidation,
}

/// MII link polling, all values in milliseconds.
#[derive(Clone, Copy, Debug, PartialEq, Eq, Structural)]
pub struct MiiMonConfig {
    pub frequency: u32,
    pub updelay: u32,
    pub downdelay: u32,
}

/// ARP probing: an interval in milliseconds, a validation policy and the
/// addresses probed.
#[derive(Clone, Debug)]
pub struct ArpMonConfig {
    pub interval: u32,
    pub validate: ArpValidate,
    pub targets: Vec<IpAddress>,
}

/// The mathematical value of an `ArpMonConfig`.
pub ghost struct ArpMonModel {
    pub interval: u32,
    pub validate: ArpValidate,
    pub targets: Seq<IpAddress>,
}

impl View for ArpMonConfig {
    type V = ArpMonModel;

    open spec fn view(&self) -> ArpMonModel {
        ArpMonModel { interval: self.interval, validate: self.validate, targets: self.targets@ }
    }
}

/// The single monitoring strategy of a bond.
#[derive(Clone, Debug)]
pub enum BondMonitoring {
    MiiMon(MiiMonConfig),
    ArpMon(ArpMonConfig),
}

/// The mathematical value of a `BondMonitoring`.
pub ghost enum MonitoringModel {
    MiiMon(MiiMonConfig),
    ArpMon(ArpMonModel),
}

impl View for BondMonitoring {
    type V = MonitoringModel;

    open spec fn view(&self) -> MonitoringModel {
        match self {
            BondMonitoring::MiiMon(c) => MonitoringModel::MiiMon(*c),
            BondMonitoring::ArpMon(c) => MonitoringModel::ArpMon(c@),
        }
    }
}

pub open spec fn reason_mii_frequency_zero() -> Seq<char> {
    "miimon-frequency-ms of 0 disables Mii Monitoring, either set a value or configure Arp Monitoring"@
}

pub open spec fn reason_mii_delays() -> Seq<char> {
    "miimon-updelay-ms and miimon-downdelay-ms must be equal to or larger than miimon-frequency-ms"@
}

pub open spec fn reason_arp_interval_zero() -> Seq<char> {
    "arpmon-interval-ms of 0 disables Arp Monitoring, either set a value or configure Mii Monitoring"@
}

pub open spec fn reason_arp_targets() -> Seq<char> {
    "arpmon-targets must include between 1 and 16 targets"@
}

/// The first MII rule that `c` breaks, as its reason, or `None`.
pub open spec fn mii_violation(c: MiiMonConfig) -> Option<Seq<char>> {
    if c.frequency == 0 {
        Some(reason_mii_frequency_zero())
    } else if !(c.frequency <= c.updelay && c.frequency <= c.downdelay) {
        Some(reason_mii_delays())
    } else {
        None
    }
}

/// The first ARP rule that `c` breaks, as its reason, or `None`.
pub open spec fn arp_violation(c: ArpMonModel) -> Option<Seq<char>> {
    if c.interval == 0 {
        Some(reason_arp_interval_zero())
    } else if !(1 <= c.targets.len() <= MAX_ARP_TARGETS) {
        Some(reason_arp_targets())
    } else {
        None
    }
}

/// The first monitoring rule that `m` breaks, as its reason, or `None`.
pub open spec fn monitoring_violation(m: MonitoringModel) -> Option<Seq<char>> {
    match m {
        MonitoringModel::MiiMon(c) => mii_violation(c),
        MonitoringModel::ArpMon(c) => arp_violation(c),
    }
}

/// The outcome that a check with the given first violation reports.
pub open spec fn outcome_matches(r: Result<(), ConfigError>, v: Option<Seq<char>>) -> bool {
    match r {
        Ok(()) => v is None,
        Err(e) => v == Some(e.reason_spec()),
    }
}

impl MiiMonConfig {
    /// Checks that polling is enabled and that both delays are at least
    /// one polling period.
    pub fn validate(&self) -> (r: Result<(), ConfigError>)
        ensures
            outcome_matches(r, mii_violation(*self)),
    {
        if self.frequency == 0 {
            return Err(ConfigError::invalid(
                "miimon-frequency-ms of 0 disables Mii Monitoring, either set a value or configure Arp Monitoring",
            ));
        }
        if !(self.frequency <= self.updelay && self.frequency <= self.downdelay) {
            return Err(ConfigError::invalid(
                "miimon-updelay-ms and miimon-downdelay-ms must be equal to or larger than miimon-frequency-ms",
            ));
        }
        Ok(())
    }
}

impl ArpMonConfig {
    /// Checks that probing is enabled and that between 1 and 16 targets
    /// are given.
    pub fn validate(&self) -> (r: Result<(), ConfigError>)
        ensures
            outcome_matches(r, arp_violation(self@)),
    {
        if self.interval == 0 {
            return Err(ConfigError::invalid(
                "arpmon-interval-ms of 0 disables Arp Monitoring, either set a value or configure Mii Monitoring",
            ));
        }
        let count = self.targets.len();
        if !(1 <= count && count <= MAX_ARP_TARGETS) {
            return Err(ConfigError::invalid("arpmon-targets must include between 1 and 16 targets"));
        }
        Ok(())
    }
}

impl BondMonitoring {
    /// Runs the validator of the configured strategy.
    pub fn validate(&self) -> (r: Result<(), ConfigError>)
        ensures
            outcome_matches(r, monitoring_violation(self@)),
    {
        match self {
            BondMonitoring::MiiMon(c) => c.validate(),
            BondMonitoring::ArpMon(c) => c.validate(),
        }
    }
}

} // verus!
