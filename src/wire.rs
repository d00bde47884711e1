//! Reading a declaration: the `kind` discriminator, the enum tags, and the
//! choice between the two monitoring field families.
use crate::error::ParseError;
use crate::bond::{BondConfig, BondMode, BondModel};
use crate::monitoring::{
    ArpMonConfig, ArpMonModel, ArpValidate, BondMonitoring, IpAddress, MiiMonConfig, MonitoringModel,
};
use vstd::prelude::*;

verus! {

/// What `str::to_lowercase` returns for a string.
pub uninterp spec fn lower_of(s: Seq<char>) -> Seq<char>;

/// Relies on `str::to_lowercase`: its result is a function of the
/// characters alone (Unicode lower-case mapping, no locale).
#[verifier::external_body]
fn to_lowercase(s: &str) -> (r: String)
    ensures
        r@ == lower_of(s@),
{
    s.to_lowercase()
}

/// A `kind` is accepted when it lower-cases to `bond`.
pub open spec fn kind_accepted(kind: Seq<char>) -> bool {
    lower_of(kind) == "bond"@
}

pub open spec fn kind_mismatch_message(kind: Seq<char>) -> Seq<char> {
    "kind of '"@ + kind + "' does not match 'bond'"@
}

/// Decides the discriminator from `kind` and its lower-case form.
pub fn check_lowered_kind(kind: &str, lowered: &str) -> (r: Result<(), ParseError>)
    ensures
        r is Ok <==> lowered@ == "bond"@,
        r matches Err(e) ==> e.message@ == kind_mismatch_message(kind@),
{
    if String::from_str(lowered) == String::from_str("bond") {
        Ok(())
    } else {
        let mut message = String::from_str("kind of '");
        message.append(kind);
        message.append("' does not match 'bond'");
        Err(ParseError { message })
    }
}

/// Checks the `kind` discriminator of a bond declaration, ignoring case.
pub fn check_kind(kind: &str) -> (r: Result<(), ParseError>)
    ensures
        r is Ok <==> kind_accepted(kind@),
        r matches Err(e) ==> e.message@ == kind_mismatch_message(kind@),
{
    let lowered = to_lowercase(kind);
    check_lowered_kind(kind, lowered.as_str())
}

/// Whether two strings hold the same characters.
fn same_text(a: &str, b: &str) -> (r: bool)
    ensures
        r == (a@ == b@),
{
    String::from_str(a) == String::from_str(b)
}

/// The wire form of a bond mode.
pub open spec fn mode_tag(m: BondMode) -> Seq<char> {
    match m {
        BondMode::ActiveBackup => "active-backup"@,
    }
}

/// The bond mode that a wire tag names, if any. Tags are case-sensitive.
pub open spec fn mode_of_tag(tag: Seq<char>) -> Option<BondMode> {
    if tag == "active-backup"@ {
        Some(BondMode::ActiveBackup)
    } else {
        None
    }
}

pub open spec fn unknown_mode_message(tag: Seq<char>) -> Seq<char> {
    "unknown variant `"@ + tag + "`, expected `active-backup`"@
}

/// Reads the `mode` tag.
pub fn parse_mode(tag: &str) -> (r: Result<BondMode, ParseError>)
    ensures
        r is Ok <==> tag@ == "active-backup"@,
        r matches Ok(m) ==> mode_of_tag(tag@) == Some(m),
        r matches Err(e) ==> e.message@ == unknown_mode_message(tag@),
{
    if same_text(tag, "active-backup") {
        Ok(BondMode::ActiveBackup)
    } else {
        let mut message = String::from_str("unknown variant `");
        message.append(tag);
        message.append("`, expected `active-backup`");
        Err(ParseError { message })
    }
}

impl BondMode {
    /// The wire form of the mode.
    pub fn tag(&self) -> (r: &'static str)
        ensures
            r@ == mode_tag(*self),
    {
        match self {
            BondMode::ActiveBackup => "active-backup",
        }
    }
}

/// The wire form of an ARP validation policy.
pub open spec fn arp_validate_tag(v: ArpValidate) -> Seq<char> {
    match v {
        ArpValidate::Active => "active"@,
        ArpValidate::All => "all"@,
        ArpValidate::Backup => "backup"@,
        ArpValidate::NoValidation => "none"@,
    }
}

/// The ARP validation policy that a wire tag names, if any.
pub open spec fn arp_validate_of_tag(tag: Seq<char>) -> Option<ArpValidate> {
    if tag == "active"@ {
        Some(ArpValidate::Active)
    } else if tag == "all"@ {
        Some(ArpValidate::All)
    } else if tag == "backup"@ {
        Some(ArpValidate::Backup)
    } else if tag == "none"@ {
        Some(ArpValidate::NoValidation)
    } else {
        None
    }
}

pub open spec fn unknown_arp_validate_message(tag: Seq<char>) -> Seq<char> {
    "unknown variant `"@ + tag + "`, expected one of `active`, `all`, `backup`, `none`"@
}

/// Reads the `arpmon-validate` tag.
pub fn parse_arp_validate(tag: &str) -> (r: Result<ArpValidate, ParseError>)
    ensures
        r is Ok <==> arp_validate_of_tag(tag@) is Some,
        r matches Ok(v) ==> arp_validate_of_tag(tag@) == Some(v),
        r matches Err(e) ==> e.message@ == unknown_arp_validate_message(tag@),
{
    if same_text(tag, "active") {
        Ok(ArpValidate::Active)
    } else if same_text(tag, "all") {
        Ok(ArpValidate::All)
    } else if same_text(tag, "backup") {
        Ok(ArpValidate::Backup)
    } else if same_text(tag, "none") {
        Ok(ArpValidate::NoValidation)
    } else {
        let mut message = String::from_str("unknown variant `");
        message.append(tag);
        message.append("`, expected one of `active`, `all`, `backup`, `none`");
        Err(ParseError { message })
    }
}

impl ArpValidate {
    /// The wire form of the policy.
    pub fn tag(&self) -> (r: &'static str)
        ensures
            r@ == arp_validate_tag(*self),
    {
        match self {
            ArpValidate::Active => "active",
            ArpValidate::All => "all",
            ArpValidate::Backup => "backup",
            ArpValidate::NoValidation => "none",
        }
    }
}

/// Every tag names back the mode it was written from.
pub proof fn lemma_mode_tag_round_trip(m: BondMode)
    ensures
        mode_of_tag(mode_tag(m)) == Some(m),
{
}

/// Every tag names back the ARP validation policy it was written from.
pub proof fn lemma_arp_validate_tag_round_trip(v: ArpValidate)
    ensures
        arp_validate_of_tag(arp_validate_tag(v)) == Some(v),
{
    reveal_strlit("active");
    reveal_strlit("all");
    reveal_strlit("backup");
    reveal_strlit("none");
    assert("all"@.len() == 3);
    assert("all"@[0] == 'a');
    assert("active"@.len() == 6);
    assert("backup"@[0] != "active"@[0] && "backup"@[0] != "all"@[0]);
    assert("none"@[0] != "active"@[0] && "none"@[0] != "all"@[0] && "none"@[0] != "backup"@[0]);
}

/// The keys of a `monitoring` table, as read: one entry per known key, and
/// the names of any other keys.
#[derive(Debug)]
pub struct MonitoringTable {
    pub miimon_frequency_ms: Option<u32>,
    pub miimon_updelay_ms: Option<u32>,
    pub miimon_downdelay_ms: Option<u32>,
    pub arpmon_interval_ms: Option<u32>,
    pub arpmon_validate: Option<ArpValidate>,
    pub arpmon_targets: Option<Vec<IpAddress>>,
    pub other_keys: Vec<String>,
}

/// The mathematical value of a `MonitoringTable`.
pub ghost struct MonitoringTableModel {
    pub miimon_frequency_ms: Option<u32>,
    pub miimon_updelay_ms: Option<u32>,
    pub miimon_downdelay_ms: Option<u32>,
    pub arpmon_interval_ms: Option<u32>,
    pub arpmon_validate: Option<ArpValidate>,
    pub arpmon_targets: Option<Seq<IpAddress>>,
    pub other_keys: Seq<String>,
}

impl View for MonitoringTable {
    type V = MonitoringTableModel;

    open spec fn view(&self) -> MonitoringTableModel {
        MonitoringTableModel {
            miimon_frequency_ms: self.miimon_frequency_ms,
            miimon_updelay_ms: self.miimon_updelay_ms,
            miimon_downdelay_ms: self.miimon_downdelay_ms,
            arpmon_interval_ms: self.arpmon_interval_ms,
            arpmon_validate: self.arpmon_validate,
            arpmon_targets: match self.arpmon_targets {
                Some(t) => Some(t@),
                None => None,
            },
            other_keys: self.other_keys@,
        }
    }
}

/// The table holds a key of the `miimon-*` family.
pub open spec fn has_mii_key(t: MonitoringTableModel) -> bool {
    t.miimon_frequency_ms is Some || t.miimon_updelay_ms is Some || t.miimon_downdelay_ms is Some
}

/// The table holds a key of the `arpmon-*` family.
pub open spec fn has_arp_key(t: MonitoringTableModel) -> bool {
    t.arpmon_interval_ms is Some || t.arpmon_validate is Some || t.arpmon_targets is Some
}

/// The first `arpmon-*` key that the table holds, in schema order.
pub open spec fn first_arp_key(t: MonitoringTableModel) -> Seq<char> {
    if t.arpmon_interval_ms is Some {
        "arpmon-interval-ms"@
    } else if t.arpmon_validate is Some {
        "arpmon-validate"@
    } else {
        "arpmon-targets"@
    }
}

pub open spec fn no_monitoring_message() -> Seq<char> {
    "monitoring needs either the miimon-* or the arpmon-* keys"@
}

/// What reading a `monitoring` table gives: the strategy, or the message of
/// the first structural failure. A key outside both families is named first;
/// once a `miimon-*` key is present the `arpmon-*` keys are unknown fields,
/// and a missing key of the chosen family is named.
pub open spec fn monitoring_of_table(t: MonitoringTableModel) -> Result<MonitoringModel, Seq<char>> {
    if t.other_keys.len() > 0 {
        Err(unknown_field_message(t.other_keys[0]@))
    } else if has_mii_key(t) {
        if has_arp_key(t) {
            Err(unknown_field_message(first_arp_key(t)))
        } else if t.miimon_frequency_ms is None {
            Err(missing_field_message("miimon-frequency-ms"@))
        } else if t.miimon_updelay_ms is None {
            Err(missing_field_message("miimon-updelay-ms"@))
        } else if t.miimon_downdelay_ms is None {
            Err(missing_field_message("miimon-downdelay-ms"@))
        } else {
            Ok(
                MonitoringModel::MiiMon(
                    MiiMonConfig {
                        frequency: t.miimon_frequency_ms->Some_0,
                        updelay: t.miimon_updelay_ms->Some_0,
                        downdelay: t.miimon_downdelay_ms->Some_0,
                    },
                ),
            )
        }
    } else if has_arp_key(t) {
        if t.arpmon_interval_ms is None {
            Err(missing_field_message("arpmon-interval-ms"@))
        } else if t.arpmon_validate is None {
            Err(missing_field_message("arpmon-validate"@))
        } else if t.arpmon_targets is None {
            Err(missing_field_message("arpmon-targets"@))
        } else {
            Ok(
                MonitoringModel::ArpMon(
                    ArpMonModel {
                        interval: t.arpmon_interval_ms->Some_0,
                        validate: t.arpmon_validate->Some_0,
                        targets: t.arpmon_targets->Some_0,
                    },
                ),
            )
        }
    } else {
        Err(no_monitoring_message())
    }
}

/// The table that writes out a monitoring strategy.
pub open spec fn table_of(m: MonitoringModel) -> MonitoringTableModel {
    match m {
        MonitoringModel::MiiMon(c) => MonitoringTableModel {
            miimon_frequency_ms: Some(c.frequency),
            miimon_updelay_ms: Some(c.updelay),
            miimon_downdelay_ms: Some(c.downdelay),
            arpmon_interval_ms: None,
            arpmon_validate: None,
            arpmon_targets: None,
            other_keys: Seq::empty(),
        },
        MonitoringModel::ArpMon(c) => MonitoringTableModel {
            miimon_frequency_ms: None,
            miimon_updelay_ms: None,
            miimon_downdelay_ms: None,
            arpmon_interval_ms: Some(c.interval),
            arpmon_validate: Some(c.validate),
            arpmon_targets: Some(c.targets),
            other_keys: Seq::empty(),
        },
    }
}

fn missing(key: &str) -> (r: ParseError)
    ensures
        r.message@ == missing_field_message(key@),
{
    ParseError { message: field_message("missing field `", key) }
}

/// Picks the monitoring strategy from a `monitoring` table. Each strategy
/// accepts its own three keys and no other, so a table that mixes the two
/// families, lacks a key or holds an unknown one is refused, and the
/// message names the key at fault.
pub fn parse_monitoring(table: MonitoringTable) -> (r: Result<BondMonitoring, ParseError>)
    ensures
        r matches Ok(m) ==> monitoring_of_table(table@) == Ok::<MonitoringModel, Seq<char>>(m@),
        r matches Err(e) ==> monitoring_of_table(table@) == Err::<MonitoringModel, Seq<char>>(
            e.message@,
        ),
{
    if table.other_keys.len() > 0 {
        return Err(
            ParseError { message: field_message("unknown field `", table.other_keys[0].as_str()) },
        );
    }
    let MonitoringTable {
        miimon_frequency_ms,
        miimon_updelay_ms,
        miimon_downdelay_ms,
        arpmon_interval_ms,
        arpmon_validate,
        arpmon_targets,
        other_keys: _,
    } = table;
    let has_mii = miimon_frequency_ms.is_some() || miimon_updelay_ms.is_some()
        || miimon_downdelay_ms.is_some();
    let has_arp = arpmon_interval_ms.is_some() || arpmon_validate.is_some()
        || arpmon_targets.is_some();
    if has_mii {
        if has_arp {
            let key = if arpmon_interval_ms.is_some() {
                "arpmon-interval-ms"
            } else if arpmon_validate.is_some() {
                "arpmon-validate"
            } else {
                "arpmon-targets"
            };
            return Err(ParseError { message: field_message("unknown field `", key) });
        }
        match (miimon_frequency_ms, miimon_updelay_ms, miimon_downdelay_ms) {
            (None, _, _) => Err(missing("miimon-frequency-ms")),
            (_, None, _) => Err(missing("miimon-updelay-ms")),
            (_, _, None) => Err(missing("miimon-downdelay-ms")),
            (Some(frequency), Some(updelay), Some(downdelay)) => Ok(
                BondMonitoring::MiiMon(MiiMonConfig { frequency, updelay, downdelay }),
            ),
        }
    } else if has_arp {
        match (arpmon_interval_ms, arpmon_validate, arpmon_targets) {
            (None, _, _) => Err(missing("arpmon-interval-ms")),
            (_, None, _) => Err(missing("arpmon-validate")),
            (_, _, None) => Err(missing("arpmon-targets")),
            (Some(interval), Some(validate), Some(targets)) => Ok(
                BondMonitoring::ArpMon(ArpMonConfig { interval, validate, targets }),
            ),
        }
    } else {
        Err(
            ParseError {
                message: String::from_str("monitoring needs either the miimon-* or the arpmon-* keys"),
            },
        )
    }
}

impl BondMonitoring {
    /// Writes the strategy out as a `monitoring` table.
    pub fn into_table(self) -> (r: MonitoringTable)
        ensures
            r@ == table_of(self@),
    {
        match self {
            BondMonitoring::MiiMon(c) => MonitoringTable {
                miimon_frequency_ms: Some(c.frequency),
                miimon_updelay_ms: Some(c.updelay),
                miimon_downdelay_ms: Some(c.downdelay),
                arpmon_interval_ms: None,
                arpmon_validate: None,
                arpmon_targets: None,
                other_keys: Vec::new(),
            },
            BondMonitoring::ArpMon(c) => MonitoringTable {
                miimon_frequency_ms: None,
                miimon_updelay_ms: None,
                miimon_downdelay_ms: None,
                arpmon_interval_ms: Some(c.interval),
                arpmon_validate: Some(c.validate),
                arpmon_targets: Some(c.targets),
                other_keys: Vec::new(),
            },
        }
    }
}

/// Writing a monitoring strategy out as a table and reading the table back
/// gives the same strategy.
pub proof fn lemma_monitoring_round_trip(m: MonitoringModel)
    ensures
        monitoring_of_table(table_of(m)) == Ok::<MonitoringModel, Seq<char>>(m),
{
}

/// A table that holds a key of both the `miimon-*` and the `arpmon-*`
/// family describes no monitoring strategy: an unknown key is named if
/// there is one, else the first `arpmon-*` key.
pub proof fn lemma_mixed_families_rejected(t: MonitoringTableModel)
    requires
        has_mii_key(t),
        has_arp_key(t),
    ensures
        monitoring_of_table(t) is Err,
        t.other_keys.len() == 0 ==> monitoring_of_table(t) == Err::<MonitoringModel, Seq<char>>(
            unknown_field_message(first_arp_key(t)),
        ),
{
}

/// A key outside the schema of a `monitoring` table is named in the error
/// that reading a bond declaration gives, whenever the declaration is
/// otherwise complete and free of unknown top-level keys and its mode tag is
/// recognised.
pub proof fn lemma_unknown_monitoring_key_named(t: BondTableModel)
    requires
        t.other_keys.len() == 0,
        t.kind is Some,
        t.mode is Some,
        t.interfaces is Some,
        mode_of_tag(t.mode->Some_0) is Some,
        t.monitoring matches Some(m) && m.other_keys.len() > 0,
    ensures
        read_bond(t) == Err::<BondModel, Seq<char>>(
            unknown_field_message(t.monitoring->Some_0.other_keys[0]@),
        ),
{
}

/// A bond declaration's top-level keys, as read: one entry per known key,
/// and the names of keys outside the bond schema.
#[derive(Debug)]
pub struct BondTable {
    pub primary: Option<bool>,
    pub kind: Option<String>,
    pub mode: Option<String>,
    pub min_links: Option<usize>,
    pub monitoring: Option<MonitoringTable>,
    pub interfaces: Option<Vec<String>>,
    pub other_keys: Vec<String>,
}

/// The mathematical value of a `BondTable`.
pub ghost struct BondTableModel {
    pub primary: Option<bool>,
    pub kind: Option<Seq<char>>,
    pub mode: Option<Seq<char>>,
    pub min_links: Option<usize>,
    pub monitoring: Option<MonitoringTableModel>,
    pub interfaces: Option<Seq<String>>,
    pub other_keys: Seq<String>,
}

impl View for BondTable {
    type V = BondTableModel;

    open spec fn view(&self) -> BondTableModel {
        BondTableModel {
            primary: self.primary,
            kind: match self.kind {
                Some(k) => Some(k@),
                None => None,
            },
            mode: match self.mode {
                Some(m) => Some(m@),
                None => None,
            },
            min_links: self.min_links,
            monitoring: match self.monitoring {
                Some(m) => Some(m@),
                None => None,
            },
            interfaces: match self.interfaces {
                Some(i) => Some(i@),
                None => None,
            },
            other_keys: self.other_keys@,
        }
    }
}

pub open spec fn unknown_field_message(key: Seq<char>) -> Seq<char> {
    "unknown field `"@ + key + "`"@
}

pub open spec fn missing_field_message(key: Seq<char>) -> Seq<char> {
    "missing field `"@ + key + "`"@
}

/// What reading a bond table gives: the declaration, or the message of the
/// first structural failure. Unknown keys are checked first, then required
/// keys, the mode tag, the monitoring table and last the discriminator.
pub open spec fn read_bond(t: BondTableModel) -> Result<BondModel, Seq<char>> {
    if t.other_keys.len() > 0 {
        Err(unknown_field_message(t.other_keys[0]@))
    } else if t.kind is None {
        Err(missing_field_message("kind"@))
    } else if t.mode is None {
        Err(missing_field_message("mode"@))
    } else if t.monitoring is None {
        Err(missing_field_message("monitoring"@))
    } else if t.interfaces is None {
        Err(missing_field_message("interfaces"@))
    } else if mode_of_tag(t.mode->Some_0) is None {
        Err(unknown_mode_message(t.mode->Some_0))
    } else if monitoring_of_table(t.monitoring->Some_0) is Err {
        Err(monitoring_of_table(t.monitoring->Some_0)->Err_0)
    } else if !kind_accepted(t.kind->Some_0) {
        Err(kind_mismatch_message(t.kind->Some_0))
    } else {
        Ok(
            BondModel {
                primary: t.primary,
                kind: t.kind->Some_0,
                mode: mode_of_tag(t.mode->Some_0)->Some_0,
                min_links: t.min_links,
                monitoring: monitoring_of_table(t.monitoring->Some_0)->Ok_0,
                interfaces: t.interfaces->Some_0,
            },
        )
    }
}

/// The table that writes out a bond declaration.
pub open spec fn table_of_bond(c: BondModel) -> BondTableModel {
    BondTableModel {
        primary: c.primary,
        kind: Some(c.kind),
        mode: Some(mode_tag(c.mode)),
        min_links: c.min_links,
        monitoring: Some(table_of(c.monitoring)),
        interfaces: Some(c.interfaces),
        other_keys: Seq::empty(),
    }
}

fn field_message(prefix: &str, key: &str) -> (r: String)
    ensures
        r@ == prefix@ + key@ + "`"@,
{
    let mut message = String::from_str(prefix);
    message.append(key);
    message.append("`");
    message
}

/// Reads a bond declaration from its table: strict keys, the `mode` tag,
/// the monitoring strategy and the `kind` discriminator.
pub fn parse_bond(table: BondTable) -> (r: Result<BondConfig, ParseError>)
    ensures
        r matches Ok(c) ==> read_bond(table@) == Ok::<BondModel, Seq<char>>(c@),
        r matches Err(e) ==> read_bond(table@) == Err::<BondModel, Seq<char>>(e.message@),
{
    if table.other_keys.len() > 0 {
        return Err(ParseError { message: field_message("unknown field `", table.other_keys[0].as_str()) });
    }
    let BondTable { primary, kind, mode, min_links, monitoring, interfaces, other_keys: _ } = table;
    let kind = match kind {
        Some(k) => k,
        None => {
            return Err(ParseError { message: field_message("missing field `", "kind") });
        },
    };
    let mode = match mode {
        Some(m) => m,
        None => {
            return Err(ParseError { message: field_message("missing field `", "mode") });
        },
    };
    let monitoring = match monitoring {
        Some(m) => m,
        None => {
            return Err(ParseError { message: field_message("missing field `", "monitoring") });
        },
    };
    let interfaces = match interfaces {
        Some(i) => i,
        None => {
            return Err(ParseError { message: field_message("missing field `", "interfaces") });
        },
    };
    let mode = parse_mode(mode.as_str())?;
    let monitoring_config = parse_monitoring(monitoring)?;
    BondConfig::new(primary, kind, mode, min_links, monitoring_config, interfaces)
}

impl BondConfig {
    /// Writes the declaration out as a bond table.
    pub fn into_table(self) -> (r: BondTable)
        ensures
            r@ == table_of_bond(self@),
    {
        BondTable {
            primary: self.primary,
            kind: Some(self.kind),
            mode: Some(String::from_str(self.mode.tag())),
            min_links: self.min_links,
            monitoring: Some(self.monitoring_config.into_table()),
            interfaces: Some(self.interfaces),
            other_keys: Vec::new(),
        }
    }
}

/// A declaration whose discriminator names a bond, written out as a table
/// and read back, is the same declaration.
pub proof fn lemma_bond_round_trip(c: BondModel)
    requires
        kind_accepted(c.kind),
    ensures
        read_bond(table_of_bond(c)) == Ok::<BondModel, Seq<char>>(c),
{
    lemma_mode_tag_round_trip(c.mode);
    lemma_monitoring_round_trip(c.monitoring);
}

} // verus!
