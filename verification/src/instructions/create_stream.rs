//! Creation: the terms that a sender asks for become a record, if they keep
//! the rules.

use vstd::prelude::*;
use crate::error::StreamFlowError;
use crate::identity::Identity;
use crate::state::stream::{Stream, StreamType};
use crate::state::utils::fee_rates_valid;
use crate::state::StreamStatus;

verus! {

/// The terms under which a sender opens a stream.
#[derive(Clone, Copy, Debug, PartialEq, Eq)]
pub struct CreateStream {
    /// Who deposits.
    pub sender: Identity,
    /// Who the deposit unlocks for.
    pub recipient: Identity,
    /// The asset that is streamed.
    pub mint: Identity,
    /// What is deposited.
    pub deposit_amount: u64,
    /// When unlocking starts.
    pub start_time: i64,
    /// When everything has unlocked.
    pub end_time: i64,
    /// The cliff, if the stream has one.
    pub cliff_time: Option<i64>,
    /// What a cliff stream unlocks at once at its cliff.
    pub cliff_amount: u64,
    /// What a step stream unlocks per interval.
    pub rate_amount: u64,
    /// Length of the interval of a step stream.
    pub rate_interval_in_seconds: u64,
    /// The schedule.
    pub stream_type: StreamType,
    /// Whether the sender may cancel.
    pub cancelable_by_sender: bool,
    /// Whether the recipient may cancel.
    pub cancelable_by_recipient: bool,
    /// Whether the sender may name another recipient.
    pub transferable_by_sender: bool,
    /// Whether the recipient may name another recipient.
    pub transferable_by_recipient: bool,
    /// Fee of the platform in basis points.
    pub fee_percentage: u16,
    /// Fee of the partner in basis points.
    pub partner_fee_percentage: u16,
}

impl CreateStream {
    /// Why the terms are refused, if they are: the first of the rules that
    /// they break.
    pub open spec fn refusal(&self) -> Option<StreamFlowError> {
        if self.start_time >= self.end_time {
            Some(StreamFlowError::InvalidEndTime)
        } else if self.deposit_amount == 0 {
            Some(StreamFlowError::InvalidAmount)
        } else if self.cliff_time matches Some(cliff) && !(self.start_time <= cliff
            <= self.end_time) {
            Some(StreamFlowError::InvalidCliffPeriod)
        } else if self.cliff_amount > self.deposit_amount {
            Some(StreamFlowError::InvalidVestingSchedule)
        } else if self.stream_type is Step && self.rate_interval_in_seconds == 0 {
            Some(StreamFlowError::InvalidStreamConfig)
        } else if !fee_rates_valid(self.fee_percentage, self.partner_fee_percentage) {
            Some(StreamFlowError::InvalidFeeConfiguration)
        } else {
            None
        }
    }

    /// The record of a stream just opened under these terms: nothing is
    /// withdrawn, nobody has cancelled, and the stream is streaming, though
    /// nothing unlocks before its start.
    pub open spec fn opened(&self) -> Stream {
        Stream {
            sender: self.sender,
            recipient: self.recipient,
            mint: self.mint,
            deposited_amount: self.deposit_amount,
            withdrawn_amount: 0,
            start_time: self.start_time,
            end_time: self.end_time,
            cliff_time: self.cliff_time,
            cliff_amount: self.cliff_amount,
            rate_amount: self.rate_amount,
            rate_interval_in_seconds: self.rate_interval_in_seconds,
            stream_type: self.stream_type,
            status: StreamStatus::Streaming,
            cancelable_by_sender: self.cancelable_by_sender,
            cancelable_by_recipient: self.cancelable_by_recipient,
            transferable_by_sender: self.transferable_by_sender,
            transferable_by_recipient: self.transferable_by_recipient,
            fee_percentage: self.fee_percentage,
            partner_fee_percentage: self.partner_fee_percentage,
            last_mutation_time: self.start_time,
            cancelled_at: None,
            cancelled_by: None,
        }
    }
}

/// Opens a stream under `terms`.
///
/// The rules, in this order: an end that is not after the start fails with
/// `InvalidEndTime`; a deposit of zero with `InvalidAmount`; a cliff before
/// the start or after the end with `InvalidCliffPeriod`; a cliff amount
/// above the deposit with `InvalidVestingSchedule`; a step schedule without
/// an interval with `InvalidStreamConfig`; fee rates that together take more
/// than the whole with `InvalidFeeConfiguration`.
pub fn create_stream(terms: &CreateStream) -> (outcome: Result<Stream, StreamFlowError>)
    ensures
        match outcome {
            Ok(stream) => {
                &&& terms.refusal() is None
                &&& stream == terms.opened()
                &&& stream.wf()
            },
            Err(e) => terms.refusal() == Some(e),
        },
{
    if terms.start_time >= terms.end_time {
        return Err(StreamFlowError::InvalidEndTime);
    }
    if terms.deposit_amount == 0 {
        return Err(StreamFlowError::InvalidAmount);
    }
    match terms.cliff_time {
        Some(cliff) => {
            if cliff < terms.start_time || cliff > terms.end_time {
                return Err(StreamFlowError::InvalidCliffPeriod);
            }
        },
        None => {},
    }
    if terms.cliff_amount > terms.deposit_amount {
        return Err(StreamFlowError::InvalidVestingSchedule);
    }
    if matches!(terms.stream_type, StreamType::Step) && terms.rate_interval_in_seconds == 0 {
        return Err(StreamFlowError::InvalidStreamConfig);
    }
    if terms.fee_percentage as u32 + terms.partner_fee_percentage as u32 > 10_000 {
        return Err(StreamFlowError::InvalidFeeConfiguration);
    }
    Ok(
        Stream {
            sender: terms.sender,
            recipient: terms.recipient,
            mint: terms.mint,
            deposited_amount: terms.deposit_amount,
            withdrawn_amount: 0,
            start_time: terms.start_time,
            end_time: terms.end_time,
            cliff_time: terms.cliff_time,
            cliff_amount: terms.cliff_amount,
            rate_amount: terms.rate_amount,
            rate_interval_in_seconds: terms.rate_interval_in_seconds,
            stream_type: terms.stream_type,
            status: StreamStatus::Streaming,
            cancelable_by_sender: terms.cancelable_by_sender,
            cancelable_by_recipient: terms.cancelable_by_recipient,
            transferable_by_sender: terms.transferable_by_sender,
            transferable_by_recipient: terms.transferable_by_recipient,
            fee_percentage: terms.fee_percentage,
            partner_fee_percentage: terms.partner_fee_percentage,
            last_mutation_time: terms.start_time,
            cancelled_at: None,
            cancelled_by: None,
        },
    )
}

} // verus!
