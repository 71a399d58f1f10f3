//! Cancellation: the stream ends early, and what is in custody is split
//! between the recipient, who gets what has unlocked, and the sender, who
//! gets the rest.

use vstd::prelude::*;
use crate::error::StreamFlowError;
use crate::identity::Identity;
use crate::state::stream::Stream;
use crate::state::utils::{fee_amount, fee_rates_valid};
use crate::state::StreamStatus;

verus! {

/// What a cancellation did.
#[derive(Clone, Copy, Debug, PartialEq, Eq)]
pub struct StreamCancelledEvent {
    /// The sender of the stream.
    pub sender: Identity,
    /// The recipient of the stream.
    pub recipient: Identity,
    /// Who cancelled.
    pub cancelled_by: Identity,
    /// What leaves custody for the recipient: the net amount and the two
    /// fees.
    pub recipient_due: u64,
    /// What goes back to the sender. No fee is taken of it.
    pub sender_due: u64,
    /// The platform's part of `recipient_due`.
    pub platform_fee: u64,
    /// The partner's part of `recipient_due`.
    pub partner_fee: u64,
    /// What the recipient gets: `recipient_due` less the two fees.
    pub net_amount: u64,
    /// When the stream was cancelled.
    pub cancelled_at: i64,
}

/// What the recipient is owed when the stream ends at `now` with
/// `custody_balance` in custody: what has unlocked and was not withdrawn,
/// and never more than custody holds.
pub open spec fn recipient_due(stream: Stream, custody_balance: u64, now: i64) -> int {
    if stream.unclaimed(now) <= custody_balance {
        stream.unclaimed(now)
    } else {
        custody_balance as int
    }
}

/// What goes back to the sender when the stream ends at `now`: all that
/// custody holds and the recipient is not owed.
pub open spec fn sender_due(stream: Stream, custody_balance: u64, now: i64) -> int {
    custody_balance - recipient_due(stream, custody_balance, now)
}

/// Why a cancellation by `authority` at `now` is refused, if it is: the
/// first of the checks that fails.
pub open spec fn cancel_refusal(stream: Stream, authority: Identity, now: i64) -> Option<
    StreamFlowError,
> {
    if stream.status is Cancelled {
        Some(StreamFlowError::StreamAlreadyCancelled)
    } else if stream.status is Completed {
        Some(StreamFlowError::StreamAlreadyCompleted)
    } else if !stream.may_cancel(authority) {
        Some(StreamFlowError::UnauthorizedAccess)
    } else if stream.divides_by_zero(now) {
        Some(StreamFlowError::DivisionByZero)
    } else if !fee_rates_valid(stream.fee_percentage, stream.partner_fee_percentage) {
        Some(StreamFlowError::InvalidFeeConfiguration)
    } else {
        None
    }
}

/// The record after `authority` cancelled it at `now` and `paid` was owed
/// to the recipient.
pub open spec fn after_cancel(stream: Stream, authority: Identity, now: i64, paid: int) -> Stream {
    Stream {
        withdrawn_amount: (stream.withdrawn_amount + paid) as u64,
        status: StreamStatus::Cancelled,
        cancelled_at: Some(now),
        cancelled_by: Some(authority),
        ..stream
    }
}

/// Cancellation neither creates nor destroys value: what the recipient is
/// owed and what goes back to the sender are both at least nothing, and
/// together they are what custody holds.
pub proof fn lemma_settlement_conserves_custody(stream: Stream, custody_balance: u64, now: i64)
    ensures
        0 <= recipient_due(stream, custody_balance, now) <= custody_balance,
        0 <= sender_due(stream, custody_balance, now) <= custody_balance,
        recipient_due(stream, custody_balance, now) + sender_due(stream, custody_balance, now)
            == custody_balance,
{
}

/// Splits `custody_balance` for a stream that ends at `current_time`: first
/// what the recipient is owed, then what goes back to the sender. The two
/// add up to `custody_balance` exactly.
///
/// Fails with `DivisionByZero`, and only with it, on a step stream that has
/// started and has no interval.
pub fn calculate_amounts(stream: &Stream, custody_balance: u64, current_time: i64) -> (split:
    Result<(u64, u64), StreamFlowError>)
    ensures
        match split {
            Ok((to_recipient, to_sender)) => {
                &&& !stream.divides_by_zero(current_time)
                &&& to_recipient == recipient_due(*stream, custody_balance, current_time)
                &&& to_sender == sender_due(*stream, custody_balance, current_time)
                &&& to_recipient + to_sender == custody_balance
                &&& to_recipient <= stream.remaining()
            },
            Err(e) => stream.divides_by_zero(current_time) && e == StreamFlowError::DivisionByZero,
        },
{
    let unclaimed = match stream.unclaimed_amount(current_time) {
        Ok(unclaimed) => unclaimed,
        Err(e) => {
            return Err(e);
        },
    };
    let to_recipient = if unclaimed <= custody_balance {
        unclaimed
    } else {
        custody_balance
    };
    let to_sender = custody_balance - to_recipient;
    Ok((to_recipient, to_sender))
}

/// Cancels `stream` at `now` on behalf of `authority`, with
/// `custody_balance` in custody for it.
///
/// The checks, in this order: a cancelled stream fails with
/// `StreamAlreadyCancelled`, a completed one with `StreamAlreadyCompleted`;
/// an `authority` that the stream does not let cancel fails with
/// `UnauthorizedAccess`; a step stream that has started and has no interval
/// fails with `DivisionByZero`; fee rates that together take more than the
/// whole fail with `InvalidFeeConfiguration`. A failed call changes nothing.
///
/// On success what the recipient is owed counts as withdrawn, and the stream
/// is cancelled by `authority` at `now`. Fees are taken of what the
/// recipient is owed only.
pub fn cancel_stream(
    stream: &mut Stream,
    authority: Identity,
    custody_balance: u64,
    now: i64,
) -> (outcome: Result<StreamCancelledEvent, StreamFlowError>)
    ensures
        match outcome {
            Ok(event) => {
                let paid = recipient_due(*old(stream), custody_balance, now);
                &&& cancel_refusal(*old(stream), authority, now) is None
                &&& event.sender == old(stream).sender
                &&& event.recipient == old(stream).recipient
                &&& event.cancelled_by == authority
                &&& event.recipient_due == paid
                &&& event.sender_due == sender_due(*old(stream), custody_balance, now)
                &&& event.recipient_due + event.sender_due == custody_balance
                &&& event.platform_fee == fee_amount(paid, old(stream).fee_percentage as int)
                &&& event.partner_fee == fee_amount(
                    paid,
                    old(stream).partner_fee_percentage as int,
                )
                &&& event.net_amount == paid - event.platform_fee - event.partner_fee
                &&& event.cancelled_at == now
                &&& *final(stream) == after_cancel(*old(stream), authority, now, paid)
                &&& final(stream).withdrawn_amount == old(stream).withdrawn_amount + paid
                &&& old(stream).withdrawn_amount <= old(stream).deposited_amount
                    ==> final(stream).withdrawn_amount <= final(stream).deposited_amount
            },
            Err(e) => {
                &&& cancel_refusal(*old(stream), authority, now) == Some(e)
                &&& *final(stream) == *old(stream)
            },
        },
        old(stream).evolves_to(*final(stream)),
        old(stream).wf() ==> final(stream).wf(),
{
    match stream.status {
        StreamStatus::Cancelled => {
            return Err(StreamFlowError::StreamAlreadyCancelled);
        },
        StreamStatus::Completed => {
            return Err(StreamFlowError::StreamAlreadyCompleted);
        },
        _ => {},
    }
    if !stream.can_cancel(&authority) {
        return Err(StreamFlowError::UnauthorizedAccess);
    }
    let (to_recipient, to_sender) = match calculate_amounts(stream, custody_balance, now) {
        Ok(split) => split,
        Err(e) => {
            return Err(e);
        },
    };
    let (platform_fee, partner_fee) = match stream.calculate_fees(to_recipient) {
        Ok(fees) => fees,
        Err(e) => {
            return Err(e);
        },
    };
    stream.withdrawn_amount = stream.withdrawn_amount + to_recipient;
    stream.status = StreamStatus::Cancelled;
    stream.cancelled_at = Some(now);
    stream.cancelled_by = Some(authority);
    Ok(
        StreamCancelledEvent {
            sender: stream.sender,
            recipient: stream.recipient,
            cancelled_by: authority,
            recipient_due: to_recipient,
            sender_due: to_sender,
            platform_fee,
            partner_fee,
            net_amount: to_recipient - platform_fee - partner_fee,
            cancelled_at: now,
        },
    )
}

} // verus!
