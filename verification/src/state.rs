//! The states a stream can be in, the kinds of schedule and role that the
//! ledger knows, and the failures of a record that breaks its own rules.

use vstd::prelude::*;

pub mod constants;
pub mod stream;
pub mod utils;

verus! {

/// A record that can check its own invariants.
pub trait StateValidation {
    /// `Ok` when the record keeps every rule of its type, else the first rule
    /// that it breaks.
    fn validate(&self) -> Result<(), StateError>;
}

/// A record that can be put back into the state of a record just created.
pub trait StateInitialization {
    /// Resets everything that records progress, and keeps the terms.
    fn initialize(&mut self) -> Result<(), StateError>;
}

/// Where a stream stands in its life.
///
/// `Cancelled` and `Completed` are final: no step leads out of them.
#[derive(Clone, Copy, Debug, PartialEq, Eq, Structural)]
pub enum StreamStatus {
    /// Created, not yet streaming.
    Scheduled,
    /// Unlocking value that the recipient may withdraw.
    Streaming,
    /// Halted by the sender; nothing can be withdrawn until it is resumed.
    Paused,
    /// Ended early; the custody balance has been split.
    Cancelled,
    /// Everything that was deposited has been withdrawn.
    Completed,
}

impl Default for StreamStatus {
    fn default() -> (status: StreamStatus)
        ensures
            status is Scheduled,
    {
        StreamStatus::Scheduled
    }
}

/// How a vesting grant unlocks.
#[derive(Clone, Copy, Debug, PartialEq, Eq, Structural)]
pub enum VestingType {
    /// Evenly between start and end.
    Linear,
    /// Everything at once, at the cliff.
    Cliff,
    /// A schedule of the grant's own; without one it unlocks as `Linear` does.
    Custom,
}

impl Default for VestingType {
    fn default() -> (kind: VestingType)
        ensures
            kind is Linear,
    {
        VestingType::Linear
    }
}

/// How often a payment falls due.
#[derive(Clone, Copy, Debug, PartialEq, Eq, Structural)]
pub enum PaymentFrequency {
    /// Every second.
    PerSecond,
    /// Every minute.
    PerMinute,
    /// Every hour.
    PerHour,
    /// Every day.
    Daily,
    /// Every week.
    Weekly,
    /// Every thirty days.
    Monthly,
}

impl Default for PaymentFrequency {
    fn default() -> (frequency: PaymentFrequency)
        ensures
            frequency is PerSecond,
    {
        PaymentFrequency::PerSecond
    }
}

impl PaymentFrequency {
    /// Length of one period in seconds; a month counts as thirty days.
    pub open spec fn seconds(self) -> u64 {
        match self {
            PaymentFrequency::PerSecond => 1,
            PaymentFrequency::PerMinute => 60,
            PaymentFrequency::PerHour => 3_600,
            PaymentFrequency::Daily => 86_400,
            PaymentFrequency::Weekly => 604_800,
            PaymentFrequency::Monthly => 2_592_000,
        }
    }

    /// Length of one period in seconds.
    pub fn to_seconds(&self) -> (seconds: u64)
        ensures
            seconds == self.seconds(),
            seconds > 0,
    {
        match self {
            PaymentFrequency::PerSecond => 1,
            PaymentFrequency::PerMinute => 60,
            PaymentFrequency::PerHour => 3_600,
            PaymentFrequency::Daily => 86_400,
            PaymentFrequency::Weekly => 604_800,
            PaymentFrequency::Monthly => 2_592_000,
        }
    }
}

/// What a member of a treasury may do, from most to least.
#[derive(Clone, Copy, Debug, PartialEq, Eq, Structural)]
pub enum TreasuryRole {
    /// May do everything.
    Owner,
    /// May manage members and funds.
    Admin,
    /// May use the funds within limits.
    Member,
    /// May only look.
    Viewer,
}

impl Default for TreasuryRole {
    fn default() -> (role: TreasuryRole)
        ensures
            role is Viewer,
    {
        TreasuryRole::Viewer
    }
}

impl TreasuryRole {
    /// Rank of the role: the higher, the more it may do.
    pub open spec fn rank(self) -> int {
        match self {
            TreasuryRole::Owner => 3,
            TreasuryRole::Admin => 2,
            TreasuryRole::Member => 1,
            TreasuryRole::Viewer => 0,
        }
    }
}

/// The rule that a record breaks.
#[derive(Clone, Copy, Debug, PartialEq, Eq, Structural)]
pub enum StateError {
    /// The status does not allow the step.
    InvalidStatusTransition,
    /// Nothing was deposited.
    ZeroStreamAmount,
    /// The duration is outside the accepted range.
    InvalidStreamDuration,
    /// The start lies in the past.
    InvalidStartTime,
    /// The end is not after the start.
    InvalidEndTime,
    /// More recipients than a stream can have.
    TooManyRecipients,
    /// The schedule cannot be met by the amounts.
    InvalidVestingSchedule,
    /// The treasury holds less than is asked of it.
    InsufficientTreasuryBalance,
    /// The role does not allow the step.
    UnauthorizedTreasuryOperation,
    /// More members than a treasury can have.
    TreasuryMemberLimitExceeded,
    /// The interval between payments is zero.
    InvalidPaymentFrequency,
    /// The stream is not streaming.
    StreamNotActive,
    /// The stream is completed.
    StreamAlreadyCompleted,
    /// The stream is paused.
    StreamPaused,
    /// Nothing has unlocked yet.
    VestingNotUnlocked,
    /// The cliff lies before the start or after the end.
    InvalidCliffDate,
    /// The fees are more than the whole.
    PlatformFeeExceedsMaximum,
}

} // verus!
