//! Limits that hold across the ledger.

use vstd::prelude::*;

verus! {

/// Most recipients that one stream can have.
pub const MAX_RECIPIENTS: usize = 100;

/// Most vesting schedules that one account can hold.
pub const MAX_VESTING_SCHEDULES: usize = 50;

/// Most members that one treasury can have.
pub const MAX_TREASURY_MEMBERS: usize = 20;

/// Shortest stream, in seconds: one minute.
pub const MIN_STREAM_DURATION: u64 = 60;

/// Longest stream, in seconds: ten years of 365 days.
pub const MAX_STREAM_DURATION: u64 = 315_360_000;

/// Least amount that can be streamed.
pub const MIN_STREAM_AMOUNT: u64 = 1;

/// Fee of the platform in basis points: half a percent.
pub const PLATFORM_FEE_BPS: u16 = 50;

/// Highest fee that the platform may take, in basis points: five percent.
pub const MAX_PLATFORM_FEE_BPS: u16 = 500;

} // verus!
