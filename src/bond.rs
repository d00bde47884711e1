//! The bond device declaration and its top-level validator.
use crate::error::{ConfigError, ParseError};
use crate::monitoring::{monitoring_violation, outcome_matches, BondMonitoring, MonitoringModel};
use crate::wire::{check_kind, kind_accepted, kind_mismatch_message};
use vstd::prelude::*;

verus! {

/// The bonding algorithm. Only active-backup is supported.
#[derive(Clone, Copy, Debug, PartialEq, Eq, Structural)]
pub enum BondMode {
    ActiveBackup,
}

/// A bond device declaration.
///
/// [`BondConfig::new`] is the checked way to build one: it refuses a `kind`
/// that does not lower-case to `bond`.
#[derive(Clone, Debug)]
pub struct BondConfig {
    /// Marks the bond as the primary device of the host.
    pub primary: Option<bool>,
    /// The device discriminator, `bond` in any case.
    pub kind: String,
    pub mode: BondMode,
    /// Member links that must be up for the bond to be up.
    pub min_links: Option<usize>,
    pub monitoring_config: BondMonitoring,
    /// Names of the member interfaces.
    pub interfaces: Vec<String>,
}

/// The mathematical value of a `BondConfig`.
pub ghost struct BondModel {
    pub primary: Option<bool>,
    pub kind: Seq<char>,
    pub mode: BondMode,
    pub min_links: Option<usize>,
    pub monitoring: MonitoringModel,
    pub interfaces: Seq<String>,
}

impl View for BondConfig {
    type V = BondModel;

    open spec fn view(&self) -> BondModel {
        BondModel {
            primary: self.primary,
            kind: self.kind@,
            mode: self.mode,
            min_links: self.min_links,
            monitoring: self.monitoring_config@,
            interfaces: self.interfaces@,
        }
    }
}

pub open spec fn reason_no_interfaces() -> Seq<char> {
    "bonds must have 1 or more interfaces specified"@
}

pub open spec fn reason_min_links() -> Seq<char> {
    "min-links is greater than number of interfaces configured"@
}

/// The first bond rule broken by a declaration with these member count,
/// minimum links and monitoring, as its reason, or `None`.
pub open spec fn bond_violation(
    interface_count: nat,
    min_links: Option<usize>,
    monitoring: MonitoringModel,
) -> Option<Seq<char>> {
    if interface_count == 0 {
        Some(reason_no_interfaces())
    } else if min_links matches Some(n) && n > interface_count {
        Some(reason_min_links())
    } else {
        monitoring_violation(monitoring)
    }
}

impl BondConfig {
    /// The declaration is well formed: its discriminator names a bond.
    pub open spec fn wf(&self) -> bool {
        kind_accepted(self.kind@)
    }

    /// The first bond rule that this declaration breaks, or `None`.
    pub open spec fn violation(&self) -> Option<Seq<char>> {
        bond_violation(self.interfaces@.len(), self.min_links, self.monitoring_config@)
    }

    /// Builds a declaration after checking its `kind` discriminator.
    pub fn new(
        primary: Option<bool>,
        kind: String,
        mode: BondMode,
        min_links: Option<usize>,
        monitoring_config: BondMonitoring,
        interfaces: Vec<String>,
    ) -> (r: Result<BondConfig, ParseError>)
        ensures
            r is Ok <==> kind_accepted(kind@),
            r matches Ok(c) ==> c.wf() && c.primary == primary && c.kind == kind
                && c.mode == mode && c.min_links == min_links
                && c.monitoring_config == monitoring_config && c.interfaces == interfaces,
            r matches Err(e) ==> e.message@ == kind_mismatch_message(kind@),
    {
        match check_kind(kind.as_str()) {
            Ok(()) => Ok(BondConfig { primary, kind, mode, min_links, monitoring_config, interfaces }),
            Err(e) => Err(e),
        }
    }

    /// Checks, in order, that there is at least one member interface, that
    /// `min_links` does not exceed the member count, and the monitoring
    /// rules. The first broken rule is reported.
    pub fn validate(&self) -> (r: Result<(), ConfigError>)
        ensures
            outcome_matches(r, self.violation()),
            r is Ok ==> self.interfaces@.len() >= 1,
            r is Ok ==> (self.min_links matches Some(n) ==> n <= self.interfaces@.len()),
            r is Ok ==> (self.monitoring_config matches BondMonitoring::MiiMon(c) ==> c.frequency > 0
                && c.updelay >= c.frequency && c.downdelay >= c.frequency),
            r is Ok ==> (self.monitoring_config matches BondMonitoring::ArpMon(c) ==> c.interval > 0
                && 1 <= c.targets@.len() <= 16),
    {
        let count = self.interfaces.len();
        if count == 0 {
            return Err(ConfigError::invalid("bonds must have 1 or more interfaces specified"));
        }
        if let Some(n) = self.min_links {
            if n > count {
                return Err(
                    ConfigError::invalid("min-links is greater than number of interfaces configured"),
                );
            }
        }
        self.monitoring_config.validate()
    }

    /// Validation preceded by the outcome of the shared addressing check,
    /// which runs first: its error, if any, is reported unchanged.
    pub fn validate_after_addressing(&self, addressing: Result<(), ConfigError>) -> (r: Result<
        (),
        ConfigError,
    >)
        ensures
            addressing matches Err(a) ==> (r matches Err(e) && e.reason_spec() == a.reason_spec()),
            addressing is Ok ==> outcome_matches(r, self.violation()),
    {
        match addressing {
            Err(a) => Err(a),
            Ok(()) => self.validate(),
        }
    }
}

} // verus!
