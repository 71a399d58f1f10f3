//! Arithmetic and rules shared by every kind of record: the even release of
//! an amount over time, fees in basis points, the legal steps between
//! statuses and the order of treasury roles.

use vstd::prelude::*;
use crate::error::StreamFlowError;
use crate::state::{StreamStatus, TreasuryRole, VestingType};

verus! {

/// What has unlocked at `now` of `total`, released evenly from `start` to
/// `end`: nothing before `start`, everything from `end` on, and in between
/// the share of the time gone by, rounded down. A schedule whose end is not
/// after its start has unlocked everything once `start` is reached.
pub open spec fn linear_amount(total: int, start: int, end: int, now: int) -> int {
    if now < start {
        0
    } else if now >= end {
        total
    } else {
        total * (now - start) / (end - start)
    }
}

/// What has vested at `now` of a grant of `total`. A cliff grant vests whole
/// at its cliff and never without one; the other kinds vest evenly.
pub open spec fn vested_amount(
    total: int,
    vesting_type: VestingType,
    start: int,
    cliff_time: Option<i64>,
    end: int,
    now: int,
) -> int {
    match vesting_type {
        VestingType::Cliff => match cliff_time {
            Some(cliff) => if now >= cliff { total } else { 0 },
            None => 0,
        },
        _ => linear_amount(total, start, end, now),
    }
}

/// The part of `amount` that a rate of `bps` basis points takes, rounded down.
pub open spec fn fee_amount(amount: int, bps: int) -> int {
    amount * bps / 10_000
}

/// Whether two fee rates can be charged on the same amount: together they
/// take no more than the whole.
pub open spec fn fee_rates_valid(fee_bps: u16, partner_fee_bps: u16) -> bool {
    fee_bps + partner_fee_bps <= 10_000
}

/// Whether a stream may step from `from` to `to`.
pub open spec fn legal_transition(from: StreamStatus, to: StreamStatus) -> bool {
    match from {
        StreamStatus::Scheduled => to is Streaming || to is Cancelled,
        StreamStatus::Streaming => to is Paused || to is Cancelled || to is Completed,
        StreamStatus::Paused => to is Streaming || to is Cancelled,
        StreamStatus::Cancelled | StreamStatus::Completed => false,
    }
}

/// An even release never unlocks less than nothing nor more than the total.
pub proof fn lemma_linear_amount_bounded(total: int, start: int, end: int, now: int)
    requires
        0 <= total,
    ensures
        0 <= linear_amount(total, start, end, now) <= total,
{
    if start <= now < end {
        let elapsed = now - start;
        let duration = end - start;
        assert(0 <= total * elapsed / duration <= total) by (nonlinear_arith)
            requires
                0 <= total,
                0 <= elapsed < duration,
        ;
    }
}

/// An even release never takes back what it has unlocked: later means at
/// least as much.
pub proof fn lemma_linear_amount_monotonic(total: int, start: int, end: int, t1: int, t2: int)
    requires
        0 <= total,
        t1 <= t2,
    ensures
        linear_amount(total, start, end, t1) <= linear_amount(total, start, end, t2),
{
    lemma_linear_amount_bounded(total, start, end, t1);
    lemma_linear_amount_bounded(total, start, end, t2);
    if start <= t1 && t2 < end {
        let e1 = t1 - start;
        let e2 = t2 - start;
        let duration = end - start;
        assert(total * e1 / duration <= total * e2 / duration) by (nonlinear_arith)
            requires
                0 <= total,
                0 <= e1 <= e2,
                0 < duration,
        ;
    }
}

/// Two fees whose rates are valid together never take more than the amount.
pub proof fn lemma_fees_bounded(amount: int, fee_bps: int, partner_fee_bps: int)
    requires
        0 <= amount,
        0 <= fee_bps,
        0 <= partner_fee_bps,
        fee_bps + partner_fee_bps <= 10_000,
    ensures
        0 <= fee_amount(amount, fee_bps),
        0 <= fee_amount(amount, partner_fee_bps),
        fee_amount(amount, fee_bps) + fee_amount(amount, partner_fee_bps) <= amount,
{
    let p = amount * fee_bps;
    let q = amount * partner_fee_bps;
    assert(0 <= p && 0 <= q && p + q <= amount * 10_000) by (nonlinear_arith)
        requires
            p == amount * fee_bps,
            q == amount * partner_fee_bps,
            0 <= amount,
            0 <= fee_bps,
            0 <= partner_fee_bps,
            fee_bps + partner_fee_bps <= 10_000,
    ;
}

/// What has unlocked at `current_time` of `total_amount`, released evenly
/// from `start_time` to `end_time`. The product is taken in 128 bits, so no
/// amount and no span of time overflows.
pub fn calculate_streamed_amount(
    total_amount: u64,
    start_time: i64,
    end_time: i64,
    current_time: i64,
) -> (streamed: u64)
    ensures
        streamed == linear_amount(
            total_amount as int,
            start_time as int,
            end_time as int,
            current_time as int,
        ),
        streamed <= total_amount,
{
    if current_time < start_time {
        return 0;
    }
    if current_time >= end_time {
        return total_amount;
    }
    let elapsed: u128 = (current_time as i128 - start_time as i128) as u128;
    let duration: u128 = (end_time as i128 - start_time as i128) as u128;
    let total: u128 = total_amount as u128;
    assert(total * elapsed <= u128::MAX && (total * elapsed) / (duration as int) <= total) by (nonlinear_arith)
        requires
            total <= u64::MAX,
            elapsed < duration <= u64::MAX,
    ;
    let streamed: u128 = total * elapsed / duration;
    streamed as u64
}

/// What has vested at `current_time` of a grant of `total_amount`.
pub fn calculate_vested_amount(
    total_amount: u64,
    vesting_type: VestingType,
    start_time: i64,
    cliff_time: Option<i64>,
    end_time: i64,
    current_time: i64,
) -> (vested: u64)
    ensures
        vested == vested_amount(
            total_amount as int,
            vesting_type,
            start_time as int,
            cliff_time,
            end_time as int,
            current_time as int,
        ),
        vested <= total_amount,
{
    match vesting_type {
        VestingType::Linear => calculate_streamed_amount(
            total_amount,
            start_time,
            end_time,
            current_time,
        ),
        VestingType::Cliff => {
            match cliff_time {
                Some(cliff) => {
                    if current_time >= cliff {
                        total_amount
                    } else {
                        0
                    }
                },
                None => 0,
            }
        },
        VestingType::Custom => calculate_streamed_amount(
            total_amount,
            start_time,
            end_time,
            current_time,
        ),
    }
}

/// Whether a stream may step from `from` to `to`.
pub fn is_valid_status_transition(from: StreamStatus, to: StreamStatus) -> (legal: bool)
    ensures
        legal == legal_transition(from, to),
{
    match (from, to) {
        (StreamStatus::Scheduled, StreamStatus::Streaming) => true,
        (StreamStatus::Scheduled, StreamStatus::Cancelled) => true,
        (StreamStatus::Streaming, StreamStatus::Paused) => true,
        (StreamStatus::Streaming, StreamStatus::Cancelled) => true,
        (StreamStatus::Streaming, StreamStatus::Completed) => true,
        (StreamStatus::Paused, StreamStatus::Streaming) => true,
        (StreamStatus::Paused, StreamStatus::Cancelled) => true,
        _ => false,
    }
}

/// The fee that a rate of `fee_bps` basis points takes of `amount`, rounded
/// down. The fee must fit in 64 bits, as every fee of a rate up to the whole
/// does.
pub fn calculate_platform_fee(amount: u64, fee_bps: u16) -> (fee: u64)
    requires
        fee_amount(amount as int, fee_bps as int) <= u64::MAX,
    ensures
        fee == fee_amount(amount as int, fee_bps as int),
        fee_bps <= 10_000 ==> fee <= amount,
{
    let product: u128 = (amount as u128) * (fee_bps as u128);
    proof {
        if fee_bps <= 10_000 {
            lemma_fees_bounded(amount as int, fee_bps as int, 0);
        }
    }
    (product / 10_000) as u64
}

/// The fees of the platform and of the partner on `amount`, in this order.
/// Rates that together take more than the whole are refused.
pub fn split_fees(amount: u64, fee_bps: u16, partner_fee_bps: u16) -> (fees: Result<
    (u64, u64),
    StreamFlowError,
>)
    ensures
        match fees {
            Ok((platform_fee, partner_fee)) => {
                &&& fee_rates_valid(fee_bps, partner_fee_bps)
                &&& platform_fee == fee_amount(amount as int, fee_bps as int)
                &&& partner_fee == fee_amount(amount as int, partner_fee_bps as int)
                &&& platform_fee + partner_fee <= amount
            },
            Err(e) => !fee_rates_valid(fee_bps, partner_fee_bps) && e
                == StreamFlowError::InvalidFeeConfiguration,
        },
{
    if fee_bps as u32 + partner_fee_bps as u32 > 10_000 {
        return Err(StreamFlowError::InvalidFeeConfiguration);
    }
    proof {
        lemma_fees_bounded(amount as int, fee_bps as int, partner_fee_bps as int);
    }
    let platform_fee = calculate_platform_fee(amount, fee_bps);
    let partner_fee = calculate_platform_fee(amount, partner_fee_bps);
    Ok((platform_fee, partner_fee))
}

/// Whether `role` may do what `required_role` may do: a role may do
/// everything that a lower role may.
pub fn has_treasury_permission(role: TreasuryRole, required_role: TreasuryRole) -> (allowed: bool)
    ensures
        allowed == (role.rank() >= required_role.rank()),
{
    match (role, required_role) {
        (TreasuryRole::Owner, _) => true,
        (TreasuryRole::Admin, TreasuryRole::Admin) => true,
        (TreasuryRole::Admin, TreasuryRole::Member) => true,
        (TreasuryRole::Admin, TreasuryRole::Viewer) => true,
        (TreasuryRole::Member, TreasuryRole::Member) => true,
        (TreasuryRole::Member, TreasuryRole::Viewer) => true,
        (TreasuryRole::Viewer, TreasuryRole::Viewer) => true,
        _ => false,
    }
}

} // verus!
