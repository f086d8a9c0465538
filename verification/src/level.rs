//! Severities, and the codec between the facade's severities and the
//! engine's one-byte severity code.

use core::cmp::Ordering;
use vstd::prelude::*;
use vstd::std_specs::convert::FromSpec;

verus! {

/// Severity as the engine knows it.
///
/// On the wire it is one unsigned byte, [`LogLevel::code`], and the order of
/// the levels is the numeric order of their codes:
/// `Off < Fatal < Error < Warn < Info < Debug < Verbose`.
#[derive(Clone, Copy, Debug, PartialEq, Eq, Structural, Ord, Hash)]
pub enum LogLevel {
    Off,
    Fatal,
    Error,
    Warn,
    Info,
    Debug,
    Verbose,
}

/// Severity of a record, as the facade knows it. There is no "off" here: a
/// record always has one of the six active severities.
#[derive(Clone, Copy, Debug, PartialEq, Eq, Structural, Hash)]
pub enum Level {
    Fatal,
    Error,
    Warn,
    Info,
    Debug,
    Trace,
}

/// Filter threshold, as the facade knows it: the six severities and `Off`.
#[derive(Clone, Copy, Debug, PartialEq, Eq, Structural, Hash)]
pub enum LevelFilter {
    Off,
    Fatal,
    Error,
    Warn,
    Info,
    Debug,
    Trace,
}

/// A severity code that does not name the severity of a record.
#[derive(Clone, Copy, Debug, PartialEq, Eq, Structural, Hash)]
pub enum UnsupportedLevel {
    /// The code of `Off`, which is a threshold only.
    Disabled,
    /// A byte above the code of `Verbose`.
    Unknown(u8),
}

impl LogLevel {
    /// The numeric code of the level.
    pub open spec fn spec_code(self) -> u8 {
        match self {
            LogLevel::Off => 0u8,
            LogLevel::Fatal => 1u8,
            LogLevel::Error => 2u8,
            LogLevel::Warn => 3u8,
            LogLevel::Info => 4u8,
            LogLevel::Debug => 5u8,
            LogLevel::Verbose => 6u8,
        }
    }

    /// The level that a code stands for, if any.
    pub open spec fn spec_from_code(code: u8) -> Option<LogLevel> {
        if code == 0 {
            Some(LogLevel::Off)
        } else if code == 1 {
            Some(LogLevel::Fatal)
        } else if code == 2 {
            Some(LogLevel::Error)
        } else if code == 3 {
            Some(LogLevel::Warn)
        } else if code == 4 {
            Some(LogLevel::Info)
        } else if code == 5 {
            Some(LogLevel::Debug)
        } else if code == 6 {
            Some(LogLevel::Verbose)
        } else {
            None
        }
    }

    /// The byte that stands for this level on the engine's side.
    #[verifier::when_used_as_spec(spec_code)]
    pub fn code(self) -> (code: u8)
        ensures
            code == self.spec_code(),
            code <= 6,
    {
        match self {
            LogLevel::Off => 0,
            LogLevel::Fatal => 1,
            LogLevel::Error => 2,
            LogLevel::Warn => 3,
            LogLevel::Info => 4,
            LogLevel::Debug => 5,
            LogLevel::Verbose => 6,
        }
    }

    /// Decodes a byte that the engine reported as a level.
    pub fn from_code(code: u8) -> (level: Option<LogLevel>)
        ensures
            level == Self::spec_from_code(code),
            level is Some <==> code <= 6,
            level matches Some(l) ==> l.spec_code() == code,
    {
        match code {
            0 => Some(LogLevel::Off),
            1 => Some(LogLevel::Fatal),
            2 => Some(LogLevel::Error),
            3 => Some(LogLevel::Warn),
            4 => Some(LogLevel::Info),
            5 => Some(LogLevel::Debug),
            6 => Some(LogLevel::Verbose),
            _ => None,
        }
    }
}

impl PartialOrd for LogLevel {
    /// Compares two levels by their codes.
    fn partial_cmp(&self, other: &LogLevel) -> (order: Option<Ordering>) {
        let mine: u8 = self.code();
        let theirs: u8 = other.code();
        if mine < theirs {
            Some(Ordering::Less)
        } else if mine > theirs {
            Some(Ordering::Greater)
        } else {
            Some(Ordering::Equal)
        }
    }
}

impl vstd::std_specs::cmp::PartialOrdSpecImpl for LogLevel {
    open spec fn obeys_partial_cmp_spec() -> bool {
        true
    }

    open spec fn partial_cmp_spec(&self, other: &LogLevel) -> Option<Ordering> {
        if self.spec_code() < other.spec_code() {
            Some(Ordering::Less)
        } else if self.spec_code() > other.spec_code() {
            Some(Ordering::Greater)
        } else {
            Some(Ordering::Equal)
        }
    }
}

impl Level {
    /// The record severity that an engine level stands for; `Off` stands
    /// for none.
    pub open spec fn spec_from(log_level: LogLevel) -> Option<Level> {
        match log_level {
            LogLevel::Off => None,
            LogLevel::Fatal => Some(Level::Fatal),
            LogLevel::Error => Some(Level::Error),
            LogLevel::Warn => Some(Level::Warn),
            LogLevel::Info => Some(Level::Info),
            LogLevel::Debug => Some(Level::Debug),
            LogLevel::Verbose => Some(Level::Trace),
        }
    }

    /// The severity of a record that the engine filed under `log_level`.
    ///
    /// `Off` is a threshold and never the level of a record, so it is not
    /// accepted here; [`Level::from_code`] is the checked way in.
    pub fn from(log_level: LogLevel) -> (level: Level)
        requires
            log_level != LogLevel::Off,
        ensures
            Some(level) == Self::spec_from(log_level),
    {
        match log_level {
            LogLevel::Off => unreached(),
            LogLevel::Fatal => Level::Fatal,
            LogLevel::Error => Level::Error,
            LogLevel::Warn => Level::Warn,
            LogLevel::Info => Level::Info,
            LogLevel::Debug => Level::Debug,
            LogLevel::Verbose => Level::Trace,
        }
    }

    /// What decoding the byte `code` as the severity of a record gives.
    pub open spec fn spec_from_code(code: u8) -> Result<Level, UnsupportedLevel> {
        match LogLevel::spec_from_code(code) {
            None => Err(UnsupportedLevel::Unknown(code)),
            Some(LogLevel::Off) => Err(UnsupportedLevel::Disabled),
            Some(log_level) => Ok(Self::spec_from(log_level)->0),
        }
    }

    /// Decodes a byte of the engine as the severity of a record.
    ///
    /// The codes 1 to 6 are the six severities. The code 0 is refused as
    /// `Disabled`, every other byte as `Unknown`.
    pub fn from_code(code: u8) -> (level: Result<Level, UnsupportedLevel>)
        ensures
            level == Self::spec_from_code(code),
            level is Ok <==> 1 <= code <= 6,
            level == Err::<Level, UnsupportedLevel>(UnsupportedLevel::Disabled) <==> code == 0,
            level matches Ok(l) ==> LogLevel::from_spec(l).spec_code() == code,
    {
        match LogLevel::from_code(code) {
            None => Err(UnsupportedLevel::Unknown(code)),
            Some(LogLevel::Off) => Err(UnsupportedLevel::Disabled),
            Some(log_level) => Ok(Level::from(log_level)),
        }
    }
}

impl From<Level> for LogLevel {
    /// The engine level under which a record of severity `level` is filed.
    fn from(level: Level) -> (log_level: LogLevel) {
        match level {
            Level::Fatal => LogLevel::Fatal,
            Level::Error => LogLevel::Error,
            Level::Warn => LogLevel::Warn,
            Level::Info => LogLevel::Info,
            Level::Debug => LogLevel::Debug,
            Level::Trace => LogLevel::Verbose,
        }
    }
}

impl vstd::std_specs::convert::FromSpecImpl<Level> for LogLevel {
    open spec fn obeys_from_spec() -> bool {
        true
    }

    open spec fn from_spec(level: Level) -> LogLevel {
        match level {
            Level::Fatal => LogLevel::Fatal,
            Level::Error => LogLevel::Error,
            Level::Warn => LogLevel::Warn,
            Level::Info => LogLevel::Info,
            Level::Debug => LogLevel::Debug,
            Level::Trace => LogLevel::Verbose,
        }
    }
}

impl From<LogLevel> for LevelFilter {
    /// The facade's threshold that admits what the engine level admits.
    fn from(level: LogLevel) -> (filter: LevelFilter) {
        match level {
            LogLevel::Off => LevelFilter::Off,
            LogLevel::Fatal => LevelFilter::Fatal,
            LogLevel::Error => LevelFilter::Error,
            LogLevel::Warn => LevelFilter::Warn,
            LogLevel::Info => LevelFilter::Info,
            LogLevel::Debug => LevelFilter::Debug,
            LogLevel::Verbose => LevelFilter::Trace,
        }
    }
}

impl vstd::std_specs::convert::FromSpecImpl<LogLevel> for LevelFilter {
    open spec fn obeys_from_spec() -> bool {
        true
    }

    open spec fn from_spec(level: LogLevel) -> LevelFilter {
        match level {
            LogLevel::Off => LevelFilter::Off,
            LogLevel::Fatal => LevelFilter::Fatal,
            LogLevel::Error => LevelFilter::Error,
            LogLevel::Warn => LevelFilter::Warn,
            LogLevel::Info => LevelFilter::Info,
            LogLevel::Debug => LevelFilter::Debug,
            LogLevel::Verbose => LevelFilter::Trace,
        }
    }
}

impl LevelFilter {
    /// Whether a record of severity `level` passes this threshold.
    pub open spec fn spec_admits(self, level: Level) -> bool {
        match self {
            LevelFilter::Off => false,
            LevelFilter::Fatal => level is Fatal,
            LevelFilter::Error => level is Fatal || level is Error,
            LevelFilter::Warn => level is Fatal || level is Error || level is Warn,
            LevelFilter::Info => !(level is Debug) && !(level is Trace),
            LevelFilter::Debug => !(level is Trace),
            LevelFilter::Trace => true,
        }
    }
}

/// Encoding a severity for the engine and decoding it again gives the
/// severity back, for each of the six.
pub proof fn lemma_level_round_trip(level: Level)
    ensures
        Level::spec_from(LogLevel::from_spec(level)) == Some(level),
        Level::spec_from_code(LogLevel::from_spec(level).spec_code()) == Ok::<
            Level,
            UnsupportedLevel,
        >(level),
{
}

/// Decoding an engine level other than `Off` and encoding the result gives
/// the engine level back.
pub proof fn lemma_log_level_round_trip(log_level: LogLevel)
    requires
        log_level != LogLevel::Off,
    ensures
        Level::spec_from(log_level) is Some,
        LogLevel::from_spec(Level::spec_from(log_level)->0) == log_level,
{
}

/// A level and its code determine each other.
pub proof fn lemma_code_round_trip(log_level: LogLevel, code: u8)
    ensures
        LogLevel::spec_from_code(log_level.spec_code()) == Some(log_level),
        LogLevel::spec_from_code(code) == Some(log_level) <==> log_level.spec_code() == code,
{
}

/// The codes are ordered as the levels are named:
/// `Off < Fatal < Error < Warn < Info < Debug < Verbose`.
pub proof fn lemma_code_order()
    ensures
        LogLevel::Off.spec_code() < LogLevel::Fatal.spec_code(),
        LogLevel::Fatal.spec_code() < LogLevel::Error.spec_code(),
        LogLevel::Error.spec_code() < LogLevel::Warn.spec_code(),
        LogLevel::Warn.spec_code() < LogLevel::Info.spec_code(),
        LogLevel::Info.spec_code() < LogLevel::Debug.spec_code(),
        LogLevel::Debug.spec_code() < LogLevel::Verbose.spec_code(),
{
}

/// The facade's threshold that comes from an engine level admits a record
/// exactly when the code of the engine level is at least the code under
/// which the record is filed.
pub proof fn lemma_filter_agrees_with_codes(threshold: LogLevel, level: Level)
    ensures
        LevelFilter::from_spec(threshold).spec_admits(level) <==> threshold.spec_code()
            >= LogLevel::from_spec(level).spec_code(),
{
}

} // verus!
