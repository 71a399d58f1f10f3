//! Top-up: more is deposited into a stream that is still alive.

use vstd::prelude::*;
use crate::error::StreamFlowError;
use crate::state::stream::Stream;
use crate::state::StreamStatus;

verus! {

/// Why a top-up of `amount` is refused, if it is: the first of the checks
/// that fails.
pub open spec fn topup_refusal(stream: Stream, amount: u64) -> Option<StreamFlowError> {
    if amount == 0 {
        Some(StreamFlowError::InvalidAmount)
    } else if stream.is_terminal() {
        Some(StreamFlowError::StreamNotActive)
    } else if stream.deposited_amount + amount > u64::MAX {
        Some(StreamFlowError::ArithmeticOverflow)
    } else {
        None
    }
}

/// Adds `amount` to the deposit of `stream` at `now`.
///
/// An amount of zero fails with `InvalidAmount`, a stream that is cancelled
/// or completed with `StreamNotActive`, and a deposit that would pass 64
/// bits with `ArithmeticOverflow`. A failed call changes nothing.
pub fn topup_stream(stream: &mut Stream, now: i64, amount: u64) -> (outcome: Result<
    (),
    StreamFlowError,
>)
    ensures
        match outcome {
            Ok(_) => {
                &&& topup_refusal(*old(stream), amount) is None
                &&& *final(stream) == (Stream {
                    deposited_amount: (old(stream).deposited_amount + amount) as u64,
                    last_mutation_time: now,
                    ..*old(stream)
                })
                &&& final(stream).deposited_amount == old(stream).deposited_amount + amount
            },
            Err(e) => {
                &&& topup_refusal(*old(stream), amount) == Some(e)
                &&& *final(stream) == *old(stream)
            },
        },
        old(stream).evolves_to(*final(stream)),
        old(stream).wf() ==> final(stream).wf(),
{
    if amount == 0 {
        return Err(StreamFlowError::InvalidAmount);
    }
    match stream.status {
        StreamStatus::Cancelled | StreamStatus::Completed => {
            return Err(StreamFlowError::StreamNotActive);
        },
        _ => {},
    }
    match stream.deposited_amount.checked_add(amount) {
        Some(deposited) => {
            stream.deposited_amount = deposited;
            stream.last_mutation_time = now;
            Ok(())
        },
        None => Err(StreamFlowError::ArithmeticOverflow),
    }
}

} // verus!
