//! Error taxonomy of the two pricing engines.
//!
//! Every check performed by an operation reports a distinct error so that
//! callers can branch on the exact condition. `CommonFault` covers the
//! platform-level failures shared by both engines (malformed calls,
//! authorization, record lifecycle); each engine additionally has its own
//! market-level error enum with a stable numeric code.

use vstd::prelude::*;

verus! {

/// Platform-level failures shared by both pricing engines.
#[derive(Clone, Copy, Debug, PartialEq, Eq, Structural)]
pub enum CommonFault {
    /// The call did not supply enough accounts for the operation.
    NotEnoughAccountKeys,
    /// The instruction payload is empty, truncated, or carries an unknown tag.
    MalformedInstruction,
    /// The caller's identity is missing a signature or does not match the
    /// identity stored in the context record.
    AuthorizationError,
    /// The context record does not carry this engine's type tag.
    UninitializedAccount,
    /// The context record was not passed as writable.
    AccountNotWritable,
    /// The context record is not sized exactly `CTX_SIZE` bytes.
    WrongAccountSize,
    /// The context record already carries a valid type tag, so initializing
    /// it again would clobber a live market.
    AlreadyInitialized,
}

/// Market-level failures of the uptime (edge-spread) engine.
#[derive(Clone, Copy, Debug, PartialEq, Eq, Structural)]
pub enum UptimeMatcherError {
    MarketResolved,
    InvalidProbability,
    ProbabilityNotSet,
    OracleStale,
    OracleMismatch,
    InvalidOutcome,
    InvalidSignalSeverity,
    ArithmeticOverflow,
}

impl UptimeMatcherError {
    /// The stable numeric code reported to external callers.
    pub open spec fn spec_code(self) -> u32 {
        match self {
            UptimeMatcherError::MarketResolved => 0x300,
            UptimeMatcherError::InvalidProbability => 0x301,
            UptimeMatcherError::ProbabilityNotSet => 0x302,
            UptimeMatcherError::OracleStale => 0x303,
            UptimeMatcherError::OracleMismatch => 0x304,
            UptimeMatcherError::InvalidOutcome => 0x305,
            UptimeMatcherError::InvalidSignalSeverity => 0x306,
            UptimeMatcherError::ArithmeticOverflow => 0x307,
        }
    }

    pub fn code(&self) -> (c: u32)
        ensures
            c == self.spec_code(),
    {
        match self {
            UptimeMatcherError::MarketResolved => 0x300,
            UptimeMatcherError::InvalidProbability => 0x301,
            UptimeMatcherError::ProbabilityNotSet => 0x302,
            UptimeMatcherError::OracleStale => 0x303,
            UptimeMatcherError::OracleMismatch => 0x304,
            UptimeMatcherError::InvalidOutcome => 0x305,
            UptimeMatcherError::InvalidSignalSeverity => 0x306,
            UptimeMatcherError::ArithmeticOverflow => 0x307,
        }
    }
}

/// Market-level failures of the yield (regime-multiplier) engine.
#[derive(Clone, Copy, Debug, PartialEq, Eq, Structural)]
pub enum YieldMatcherError {
    OracleNotSynced,
    OracleStale,
    OracleAccountMismatch,
    InvalidRegime,
    ArithmeticOverflow,
}

impl YieldMatcherError {
    /// The stable numeric code reported to external callers.
    pub open spec fn spec_code(self) -> u32 {
        match self {
            YieldMatcherError::OracleNotSynced => 0x30,
            YieldMatcherError::OracleStale => 0x31,
            YieldMatcherError::OracleAccountMismatch => 0x32,
            YieldMatcherError::InvalidRegime => 0x33,
            YieldMatcherError::ArithmeticOverflow => 0x34,
        }
    }

    pub fn code(&self) -> (c: u32)
        ensures
            c == self.spec_code(),
    {
        match self {
            YieldMatcherError::OracleNotSynced => 0x30,
            YieldMatcherError::OracleStale => 0x31,
            YieldMatcherError::OracleAccountMismatch => 0x32,
            YieldMatcherError::InvalidRegime => 0x33,
            YieldMatcherError::ArithmeticOverflow => 0x34,
        }
    }
}

/// Any failure an uptime-engine operation can report.
#[derive(Clone, Copy, Debug, PartialEq, Eq, Structural)]
pub enum UptimeFault {
    Common(CommonFault),
    Matcher(UptimeMatcherError),
}

/// Any failure a yield-engine operation can report.
#[derive(Clone, Copy, Debug, PartialEq, Eq, Structural)]
pub enum YieldFault {
    Common(CommonFault),
    Matcher(YieldMatcherError),
}

} // verus!
