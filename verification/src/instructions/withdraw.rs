//! Withdrawal: the recipient takes what has unlocked.

use vstd::prelude::*;
use crate::error::StreamFlowError;
use crate::identity::Identity;
use crate::state::stream::Stream;
use crate::state::utils::{fee_amount, fee_rates_valid};
use crate::state::StreamStatus;

verus! {

/// What a withdrawal did.
#[derive(Clone, Copy, Debug, PartialEq, Eq)]
pub struct WithdrawEvent {
    /// Who the amount is for.
    pub recipient: Identity,
    /// What left custody: the net amount and the two fees.
    pub amount: u64,
    /// The platform's part of `amount`.
    pub platform_fee: u64,
    /// The partner's part of `amount`.
    pub partner_fee: u64,
    /// What the recipient gets: `amount` less the two fees.
    pub net_amount: u64,
    /// When the withdrawal was made.
    pub timestamp: i64,
    /// What is left of the deposit after the withdrawal.
    pub remaining_balance: u64,
}

/// Why a withdrawal at `now` is refused, if it is: the first of the checks
/// that fails.
pub open spec fn withdraw_refusal(stream: Stream, now: i64, requested: Option<u64>) -> Option<
    StreamFlowError,
> {
    if stream.status is Streaming && stream.divides_by_zero(now) {
        Some(StreamFlowError::DivisionByZero)
    } else if stream.withdrawable(now) == 0 {
        Some(StreamFlowError::NoFundsAvailable)
    } else if requested matches Some(amount) && amount > stream.withdrawable(now) {
        Some(StreamFlowError::InsufficientWithdrawableAmount)
    } else if !fee_rates_valid(stream.fee_percentage, stream.partner_fee_percentage) {
        Some(StreamFlowError::InvalidFeeConfiguration)
    } else {
        None
    }
}

/// What a withdrawal at `now` takes: the amount asked for, or everything
/// that can be withdrawn where none is named.
pub open spec fn withdraw_amount(stream: Stream, now: i64, requested: Option<u64>) -> int {
    match requested {
        Some(amount) => amount as int,
        None => stream.withdrawable(now),
    }
}

/// The record after a withdrawal of `amount` at `now`: the amount is added
/// to what was withdrawn, the time is noted, and a stream whose deposit is
/// all withdrawn is completed.
pub open spec fn after_withdraw(stream: Stream, now: i64, amount: int) -> Stream {
    Stream {
        withdrawn_amount: (stream.withdrawn_amount + amount) as u64,
        status: if stream.withdrawn_amount + amount >= stream.deposited_amount {
            StreamStatus::Completed
        } else {
            stream.status
        },
        last_mutation_time: now,
        ..stream
    }
}

/// Withdraws from `stream` at `now`: the amount `requested`, or everything
/// that can be withdrawn where none is named.
///
/// The checks, in this order: a step stream without an interval fails with
/// `DivisionByZero`; where nothing can be withdrawn, the call fails with
/// `NoFundsAvailable`; an amount above what can be withdrawn fails with
/// `InsufficientWithdrawableAmount`; fee rates that together take more than
/// the whole fail with `InvalidFeeConfiguration`. A failed call changes
/// nothing. What was withdrawn can never pass what was deposited, so no sum
/// overflows.
pub fn withdraw(stream: &mut Stream, now: i64, requested: Option<u64>) -> (outcome: Result<
    WithdrawEvent,
    StreamFlowError,
>)
    ensures
        match outcome {
            Ok(event) => {
                let amount = withdraw_amount(*old(stream), now, requested);
                &&& withdraw_refusal(*old(stream), now, requested) is None
                &&& event.recipient == old(stream).recipient
                &&& event.amount == amount
                &&& event.platform_fee == fee_amount(amount, old(stream).fee_percentage as int)
                &&& event.partner_fee == fee_amount(
                    amount,
                    old(stream).partner_fee_percentage as int,
                )
                &&& event.net_amount == amount - event.platform_fee - event.partner_fee
                &&& event.timestamp == now
                &&& event.remaining_balance == old(stream).deposited_amount - old(
                    stream,
                ).withdrawn_amount - amount
                &&& *final(stream) == after_withdraw(*old(stream), now, amount)
                &&& final(stream).withdrawn_amount == old(stream).withdrawn_amount + amount
                &&& final(stream).withdrawn_amount <= final(stream).deposited_amount
            },
            Err(e) => {
                &&& withdraw_refusal(*old(stream), now, requested) == Some(e)
                &&& *final(stream) == *old(stream)
            },
        },
        !(old(stream).status is Streaming) ==> outcome == Err::<WithdrawEvent, StreamFlowError>(
            StreamFlowError::NoFundsAvailable,
        ),
        old(stream).evolves_to(*final(stream)),
        old(stream).wf() ==> final(stream).wf(),
{
    let available = match stream.withdrawable_amount(now) {
        Ok(available) => available,
        Err(e) => {
            return Err(e);
        },
    };
    if available == 0 {
        return Err(StreamFlowError::NoFundsAvailable);
    }
    let amount = match requested {
        Some(requested_amount) => {
            if requested_amount > available {
                return Err(StreamFlowError::InsufficientWithdrawableAmount);
            }
            requested_amount
        },
        None => available,
    };
    let (platform_fee, partner_fee) = match stream.calculate_fees(amount) {
        Ok(fees) => fees,
        Err(e) => {
            return Err(e);
        },
    };
    stream.withdrawn_amount = stream.withdrawn_amount + amount;
    stream.last_mutation_time = now;
    if stream.withdrawn_amount >= stream.deposited_amount {
        stream.status = StreamStatus::Completed;
    }
    Ok(
        WithdrawEvent {
            recipient: stream.recipient,
            amount,
            platform_fee,
            partner_fee,
            net_amount: amount - platform_fee - partner_fee,
            timestamp: now,
            remaining_balance: stream.deposited_amount - stream.withdrawn_amount,
        },
    )
}

} // verus!
