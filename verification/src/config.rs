//! The configuration of a run: its shape, the keyed surface it is read
//! from, and the checks that a configuration passes before any flow exists.

use vstd::prelude::*;
use vstd::string::*;
use crate::text::{parse_decimal, spec_parse_decimal, str_eq};

verus! {

/// When accumulated events are flushed into a snapshot.
#[derive(Clone, Copy, Debug, PartialEq, Eq, Structural)]
pub enum GenericCongAvoidConfigReport {
    /// On every recorded event.
    Ack,
    /// Once per measured round trip.
    Rtt,
    /// Once the given number of milliseconds has passed since the last
    /// flush, whatever has been recorded.
    Interval(u64),
}

/// Who drives the window during rapid growth.
#[derive(Clone, Copy, Debug, PartialEq, Eq, Structural)]
pub enum GenericCongAvoidConfigSS {
    /// The datapath grows the window; the driver mirrors it.
    Datapath,
    /// The driver grows the window itself.
    Ccp,
}

/// The keys of the configuration surface, in the order in which they are
/// read.
#[derive(Clone, Copy, Debug, PartialEq, Eq, Structural)]
pub enum ConfigKey {
    DeficitTimeout,
    InitCwnd,
    Report,
    Ss,
    SsThresh,
    UseCompensation,
}

/// The type that a key's value must have.
#[derive(Clone, Copy, Debug, PartialEq, Eq, Structural)]
pub enum ValueKind {
    /// An integer from 0 to 2^32 - 1.
    Unsigned,
    /// A string.
    Text,
    /// A boolean.
    Boolean,
}

/// A value as the configuration surface delivers it.
#[derive(Clone, Debug)]
pub enum ConfigValue {
    Int(i64),
    Str(String),
    Bool(bool),
    /// A value of any other type.
    Other,
}

/// One keyed value of the configuration surface.
#[derive(Clone, Debug)]
pub struct ConfigEntry {
    pub key: String,
    pub value: ConfigValue,
}

/// Why a configuration was turned down. Each error names the key at fault.
#[derive(Clone, Copy, Debug, PartialEq, Eq, Structural)]
pub enum ConfigError {
    /// The key is not there.
    MissingKey(ConfigKey),
    /// The key's value has another type than the expected one.
    TypeMismatch(ConfigKey, ValueKind),
    /// The key's text is none of the values that the key admits.
    Unparseable(ConfigKey),
    /// The key's value breaks a bound: the initial window is zero, or the
    /// threshold lies below the initial window.
    OutOfRange(ConfigKey),
}

/// The configuration that all flows of a run share.
#[derive(Clone, Copy, Debug, PartialEq, Eq, Structural)]
pub struct Config {
    /// The multiple of the round-trip estimate after which a flow without
    /// progress counts as stalled.
    pub deficit_timeout: u32,
    /// The window that a flow starts with.
    pub init_cwnd: u32,
    pub report_option: GenericCongAvoidConfigReport,
    pub ss: GenericCongAvoidConfigSS,
    /// The window at which rapid growth ends.
    pub ss_thresh: u32,
    pub use_compensation: bool,
}

impl ConfigKey {
    /// The key as it is spelled on the configuration surface.
    pub open spec fn spec_name(self) -> Seq<char> {
        match self {
            ConfigKey::DeficitTimeout => "deficit_timeout"@,
            ConfigKey::InitCwnd => "init_cwnd"@,
            ConfigKey::Report => "report"@,
            ConfigKey::Ss => "ss"@,
            ConfigKey::SsThresh => "ss_thresh"@,
            ConfigKey::UseCompensation => "use_compensation"@,
        }
    }

    /// The key as it is spelled on the configuration surface.
    pub fn name(&self) -> (r: &'static str)
        ensures
            r@ == self.spec_name(),
    {
        match self {
            ConfigKey::DeficitTimeout => "deficit_timeout",
            ConfigKey::InitCwnd => "init_cwnd",
            ConfigKey::Report => "report",
            ConfigKey::Ss => "ss",
            ConfigKey::SsThresh => "ss_thresh",
            ConfigKey::UseCompensation => "use_compensation",
        }
    }
}

impl ValueKind {
    /// The type in words.
    pub open spec fn spec_name(self) -> Seq<char> {
        match self {
            ValueKind::Unsigned => "an unsigned 32-bit integer"@,
            ValueKind::Text => "a string"@,
            ValueKind::Boolean => "a boolean"@,
        }
    }

    /// The type in words.
    pub fn name(&self) -> (r: &'static str)
        ensures
            r@ == self.spec_name(),
    {
        match self {
            ValueKind::Unsigned => "an unsigned 32-bit integer",
            ValueKind::Text => "a string",
            ValueKind::Boolean => "a boolean",
        }
    }
}

impl ConfigError {
    /// The key at fault.
    pub open spec fn spec_key(self) -> ConfigKey {
        match self {
            ConfigError::MissingKey(key) => key,
            ConfigError::TypeMismatch(key, _) => key,
            ConfigError::Unparseable(key) => key,
            ConfigError::OutOfRange(key) => key,
        }
    }

    /// The key at fault.
    pub fn key(&self) -> (key: ConfigKey)
        ensures
            key == self.spec_key(),
    {
        match self {
            ConfigError::MissingKey(key) => *key,
            ConfigError::TypeMismatch(key, _) => *key,
            ConfigError::Unparseable(key) => *key,
            ConfigError::OutOfRange(key) => *key,
        }
    }

    /// The error in words. It names the key, and for a value of the wrong
    /// type the expected type as well.
    pub open spec fn spec_message(self) -> Seq<char> {
        match self {
            ConfigError::MissingKey(key) => "config missing required key '"@ + key.spec_name()
                + "'"@,
            ConfigError::TypeMismatch(key, kind) => "type mismatch for key '"@ + key.spec_name()
                + "': expected "@ + kind.spec_name(),
            ConfigError::Unparseable(key) => "'"@ + key.spec_name()
                + "' key holds none of the values it admits"@,
            ConfigError::OutOfRange(key) => "'"@ + key.spec_name() + "' key is out of range"@,
        }
    }

    /// The error in words.
    pub fn message(&self) -> (r: String)
        ensures
            r@ == self.spec_message(),
    {
        match self {
            ConfigError::MissingKey(key) => String::from_str(
                "config missing required key '",
            ).concat(key.name()).concat("'"),
            ConfigError::TypeMismatch(key, kind) => String::from_str(
                "type mismatch for key '",
            ).concat(key.name()).concat("': expected ").concat(kind.name()),
            ConfigError::Unparseable(key) => String::from_str("'").concat(key.name()).concat(
                "' key holds none of the values it admits",
            ),
            ConfigError::OutOfRange(key) => String::from_str("'").concat(key.name()).concat(
                "' key is out of range",
            ),
        }
    }
}

/// No entry has the key.
pub open spec fn key_absent(entries: Seq<ConfigEntry>, key: Seq<char>) -> bool {
    forall|j: int| 0 <= j < entries.len() ==> (#[trigger] entries[j]).key@ != key
}

/// Entry `i` is the first one with the key.
pub open spec fn first_with_key(entries: Seq<ConfigEntry>, key: Seq<char>, i: int) -> bool {
    &&& 0 <= i < entries.len()
    &&& entries[i].key@ == key
    &&& forall|j: int| 0 <= j < i ==> (#[trigger] entries[j]).key@ != key
}

/// The value of the first entry with the key, if there is one.
pub open spec fn spec_lookup(entries: Seq<ConfigEntry>, key: Seq<char>) -> Option<ConfigValue> {
    if key_absent(entries, key) {
        None
    } else {
        Some(entries[choose|i: int| first_with_key(entries, key, i)].value)
    }
}

/// The first entry with a key is the one that a lookup yields.
pub proof fn lemma_lookup_first(entries: Seq<ConfigEntry>, key: Seq<char>, i: int)
    requires
        first_with_key(entries, key, i),
    ensures
        spec_lookup(entries, key) == Some(entries[i].value),
{
    let c = choose|c: int| first_with_key(entries, key, c);
    assert(first_with_key(entries, key, c));
    assert(entries[i].key@ == key);
    if c < i {
        assert(entries[c].key@ != key);
    }
    if i < c {
        assert(entries[i].key@ != key);
    }
}

/// The position of the first entry with the key.
pub fn find_key(entries: &Vec<ConfigEntry>, key: &str) -> (r: Option<usize>)
    ensures
        r matches Some(i) ==> first_with_key(entries@, key@, i as int),
        r is None ==> key_absent(entries@, key@),
{
    let mut i: usize = 0;
    while i < entries.len()
        invariant
            i <= entries.len(),
            forall|j: int| 0 <= j < i ==> (#[trigger] entries@[j]).key@ != key@,
        decreases entries.len() - i,
    {
        if str_eq(entries[i].key.as_str(), key) {
            return Some(i);
        }
        i = i + 1;
    }
    None
}

/// The unsigned value under a key.
pub open spec fn spec_unsigned(entries: Seq<ConfigEntry>, key: ConfigKey) -> Result<
    u32,
    ConfigError,
> {
    match spec_lookup(entries, key.spec_name()) {
        None => Err(ConfigError::MissingKey(key)),
        Some(ConfigValue::Int(v)) => if 0 <= v <= u32::MAX {
            Ok(v as u32)
        } else {
            Err(ConfigError::TypeMismatch(key, ValueKind::Unsigned))
        },
        Some(_) => Err(ConfigError::TypeMismatch(key, ValueKind::Unsigned)),
    }
}

/// The text under a key.
pub open spec fn spec_text(entries: Seq<ConfigEntry>, key: ConfigKey) -> Result<
    Seq<char>,
    ConfigError,
> {
    match spec_lookup(entries, key.spec_name()) {
        None => Err(ConfigError::MissingKey(key)),
        Some(ConfigValue::Str(s)) => Ok(s@),
        Some(_) => Err(ConfigError::TypeMismatch(key, ValueKind::Text)),
    }
}

/// The boolean under a key.
pub open spec fn spec_boolean(entries: Seq<ConfigEntry>, key: ConfigKey) -> Result<
    bool,
    ConfigError,
> {
    match spec_lookup(entries, key.spec_name()) {
        None => Err(ConfigError::MissingKey(key)),
        Some(ConfigValue::Bool(b)) => Ok(b),
        Some(_) => Err(ConfigError::TypeMismatch(key, ValueKind::Boolean)),
    }
}

/// Reads the unsigned value under a key: an integer that fits in 32 bits
/// without a sign.
pub fn get_unsigned(entries: &Vec<ConfigEntry>, key: ConfigKey) -> (r: Result<u32, ConfigError>)
    ensures
        r == spec_unsigned(entries@, key),
{
    match find_key(entries, key.name()) {
        None => Err(ConfigError::MissingKey(key)),
        Some(i) => {
            proof {
                lemma_lookup_first(entries@, key.spec_name(), i as int);
            }
            match &entries[i].value {
                ConfigValue::Int(v) => {
                    if 0 <= *v && *v <= 0xffff_ffff {
                        Ok(*v as u32)
                    } else {
                        Err(ConfigError::TypeMismatch(key, ValueKind::Unsigned))
                    }
                },
                _ => Err(ConfigError::TypeMismatch(key, ValueKind::Unsigned)),
            }
        },
    }
}

/// Reads the text under a key.
pub fn get_text(entries: &Vec<ConfigEntry>, key: ConfigKey) -> (r: Result<&str, ConfigError>)
    ensures
        match r {
            Ok(s) => spec_text(entries@, key) == Ok::<Seq<char>, ConfigError>(s@),
            Err(e) => spec_text(entries@, key) == Err::<Seq<char>, ConfigError>(e),
        },
{
    match find_key(entries, key.name()) {
        None => Err(ConfigError::MissingKey(key)),
        Some(i) => {
            proof {
                lemma_lookup_first(entries@, key.spec_name(), i as int);
            }
            match &entries[i].value {
                ConfigValue::Str(s) => Ok(s.as_str()),
                _ => Err(ConfigError::TypeMismatch(key, ValueKind::Text)),
            }
        },
    }
}

/// Reads the boolean under a key.
pub fn get_boolean(entries: &Vec<ConfigEntry>, key: ConfigKey) -> (r: Result<bool, ConfigError>)
    ensures
        r == spec_boolean(entries@, key),
{
    match find_key(entries, key.name()) {
        None => Err(ConfigError::MissingKey(key)),
        Some(i) => {
            proof {
                lemma_lookup_first(entries@, key.spec_name(), i as int);
            }
            match &entries[i].value {
                ConfigValue::Bool(b) => Ok(*b),
                _ => Err(ConfigError::TypeMismatch(key, ValueKind::Boolean)),
            }
        },
    }
}

/// The reporting cadence that a text names: `ack`, `rtt`, or an unsigned
/// decimal number of milliseconds.
pub open spec fn spec_parse_report(s: Seq<char>) -> Result<
    GenericCongAvoidConfigReport,
    ConfigError,
> {
    if s == "ack"@ {
        Ok(GenericCongAvoidConfigReport::Ack)
    } else if s == "rtt"@ {
        Ok(GenericCongAvoidConfigReport::Rtt)
    } else {
        match spec_parse_decimal(s) {
            Some(ms) => Ok(GenericCongAvoidConfigReport::Interval(ms)),
            None => Err(ConfigError::Unparseable(ConfigKey::Report)),
        }
    }
}

/// The owner of rapid growth that a text names: `datapath` or `ccp`.
pub open spec fn spec_parse_ss(s: Seq<char>) -> Result<GenericCongAvoidConfigSS, ConfigError> {
    if s == "datapath"@ {
        Ok(GenericCongAvoidConfigSS::Datapath)
    } else if s == "ccp"@ {
        Ok(GenericCongAvoidConfigSS::Ccp)
    } else {
        Err(ConfigError::Unparseable(ConfigKey::Ss))
    }
}

/// Reads a reporting cadence.
pub fn parse_report(s: &str) -> (r: Result<GenericCongAvoidConfigReport, ConfigError>)
    ensures
        r == spec_parse_report(s@),
{
    if str_eq(s, "ack") {
        Ok(GenericCongAvoidConfigReport::Ack)
    } else if str_eq(s, "rtt") {
        Ok(GenericCongAvoidConfigReport::Rtt)
    } else {
        match parse_decimal(s) {
            Some(ms) => Ok(GenericCongAvoidConfigReport::Interval(ms)),
            None => Err(ConfigError::Unparseable(ConfigKey::Report)),
        }
    }
}

/// Reads the owner of rapid growth.
pub fn parse_ss(s: &str) -> (r: Result<GenericCongAvoidConfigSS, ConfigError>)
    ensures
        r == spec_parse_ss(s@),
{
    if str_eq(s, "datapath") {
        Ok(GenericCongAvoidConfigSS::Datapath)
    } else if str_eq(s, "ccp") {
        Ok(GenericCongAvoidConfigSS::Ccp)
    } else {
        Err(ConfigError::Unparseable(ConfigKey::Ss))
    }
}

impl Config {
    /// What every configuration in use satisfies: a flow starts with a
    /// window of at least one, and rapid growth ends no lower than it
    /// starts.
    pub open spec fn wf(self) -> bool {
        self.init_cwnd >= 1 && self.ss_thresh >= self.init_cwnd
    }

    /// The configuration itself where it is well formed, else the key at
    /// fault.
    pub open spec fn spec_checked(self) -> Result<Config, ConfigError> {
        if self.init_cwnd < 1 {
            Err(ConfigError::OutOfRange(ConfigKey::InitCwnd))
        } else if self.ss_thresh < self.init_cwnd {
            Err(ConfigError::OutOfRange(ConfigKey::SsThresh))
        } else {
            Ok(self)
        }
    }

    /// Checks the bounds of a configuration.
    pub fn checked(self) -> (r: Result<Config, ConfigError>)
        ensures
            r == self.spec_checked(),
            r is Ok <==> self.wf(),
    {
        if self.init_cwnd < 1 {
            Err(ConfigError::OutOfRange(ConfigKey::InitCwnd))
        } else if self.ss_thresh < self.init_cwnd {
            Err(ConfigError::OutOfRange(ConfigKey::SsThresh))
        } else {
            Ok(self)
        }
    }

    /// The configuration that a keyed surface describes, or the first
    /// error met. The keys are read in the order of `ConfigKey`; the bounds
    /// are checked once all six are read.
    pub open spec fn spec_from_entries(entries: Seq<ConfigEntry>) -> Result<Config, ConfigError> {
        match spec_unsigned(entries, ConfigKey::DeficitTimeout) {
            Err(e) => Err(e),
            Ok(deficit_timeout) => match spec_unsigned(entries, ConfigKey::InitCwnd) {
                Err(e) => Err(e),
                Ok(init_cwnd) => match spec_text(entries, ConfigKey::Report) {
                    Err(e) => Err(e),
                    Ok(report) => match spec_parse_report(report) {
                        Err(e) => Err(e),
                        Ok(report_option) => match spec_text(entries, ConfigKey::Ss) {
                            Err(e) => Err(e),
                            Ok(owner) => match spec_parse_ss(owner) {
                                Err(e) => Err(e),
                                Ok(ss) => match spec_unsigned(entries, ConfigKey::SsThresh) {
                                    Err(e) => Err(e),
                                    Ok(ss_thresh) => match spec_boolean(
                                        entries,
                                        ConfigKey::UseCompensation,
                                    ) {
                                        Err(e) => Err(e),
                                        Ok(use_compensation) => (Config {
                                            deficit_timeout,
                                            init_cwnd,
                                            report_option,
                                            ss,
                                            ss_thresh,
                                            use_compensation,
                                        }).spec_checked(),
                                    },
                                },
                            },
                        },
                    },
                },
            },
        }
    }

    /// Builds the configuration from a keyed surface. Every key is
    /// required. The result is well formed or an error that names the key at
    /// fault.
    pub fn from_entries(entries: &Vec<ConfigEntry>) -> (r: Result<Config, ConfigError>)
        ensures
            r == Self::spec_from_entries(entries@),
            r matches Ok(c) ==> c.wf(),
    {
        let deficit_timeout = match get_unsigned(entries, ConfigKey::DeficitTimeout) {
            Ok(v) => v,
            Err(e) => {
                return Err(e);
            },
        };
        let init_cwnd = match get_unsigned(entries, ConfigKey::InitCwnd) {
            Ok(v) => v,
            Err(e) => {
                return Err(e);
            },
        };
        let report = match get_text(entries, ConfigKey::Report) {
            Ok(v) => v,
            Err(e) => {
                return Err(e);
            },
        };
        let report_option = match parse_report(report) {
            Ok(v) => v,
            Err(e) => {
                return Err(e);
            },
        };
        let owner = match get_text(entries, ConfigKey::Ss) {
            Ok(v) => v,
            Err(e) => {
                return Err(e);
            },
        };
        let ss = match parse_ss(owner) {
            Ok(v) => v,
            Err(e) => {
                return Err(e);
            },
        };
        let ss_thresh = match get_unsigned(entries, ConfigKey::SsThresh) {
            Ok(v) => v,
            Err(e) => {
                return Err(e);
            },
        };
        let use_compensation = match get_boolean(entries, ConfigKey::UseCompensation) {
            Ok(v) => v,
            Err(e) => {
                return Err(e);
            },
        };
        let config = Config {
            deficit_timeout,
            init_cwnd,
            report_option,
            ss,
            ss_thresh,
            use_compensation,
        };
        config.checked()
    }
}

/// A surface that lacks any one of the six keys describes no configuration,
/// whatever else it holds.
pub proof fn lemma_missing_key_is_refused(entries: Seq<ConfigEntry>, key: ConfigKey)
    requires
        key_absent(entries, key.spec_name()),
    ensures
        Config::spec_from_entries(entries) is Err,
{
}

/// A surface describes a configuration only if it holds all six keys.
pub proof fn lemma_accepted_has_every_key(entries: Seq<ConfigEntry>, key: ConfigKey)
    requires
        Config::spec_from_entries(entries) is Ok,
    ensures
        !key_absent(entries, key.spec_name()),
        Config::spec_from_entries(entries)->Ok_0.wf(),
{
}

} // verus!
