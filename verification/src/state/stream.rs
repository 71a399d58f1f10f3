//! The record of one stream: what was deposited and withdrawn, the schedule
//! under which the deposit unlocks, and who may do what with it.

use vstd::prelude::*;
use crate::error::StreamFlowError;
use crate::identity::Identity;
use crate::state::utils::{
    calculate_streamed_amount,
    fee_amount,
    fee_rates_valid,
    lemma_linear_amount_bounded,
    legal_transition,
    lemma_linear_amount_monotonic,
    linear_amount,
    split_fees,
};
use crate::state::{StateError, StateValidation, StreamStatus};

verus! {

/// The schedule under which a deposit unlocks.
#[derive(Clone, Copy, Debug, PartialEq, Eq, Structural)]
pub enum StreamType {
    /// Evenly from start to end.
    Linear,
    /// A lump sum at the cliff, the rest evenly from start to end.
    Cliff,
    /// A fixed amount for every full interval since the start.
    Step,
    /// A schedule of the stream's own. No such schedule can be recorded, so
    /// a stream of this kind unlocks as a `Linear` one does.
    Custom,
}

/// One stream: a deposit by `sender` that unlocks for `recipient` over time.
#[derive(Clone, Copy, Debug, PartialEq, Eq)]
pub struct Stream {
    /// Who deposited, and may pause and resume.
    pub sender: Identity,
    /// Who the deposit unlocks for.
    pub recipient: Identity,
    /// The asset that is streamed.
    pub mint: Identity,
    /// Everything ever deposited, top-ups included.
    pub deposited_amount: u64,
    /// Everything ever released to the recipient.
    pub withdrawn_amount: u64,
    /// When unlocking starts.
    pub start_time: i64,
    /// When everything has unlocked.
    pub end_time: i64,
    /// Before this time a cliff stream unlocks nothing. A cliff stream
    /// without a cliff time has its cliff at the start.
    pub cliff_time: Option<i64>,
    /// What a cliff stream unlocks at once at its cliff.
    pub cliff_amount: u64,
    /// What a step stream unlocks per interval.
    pub rate_amount: u64,
    /// Length of the interval of a step stream.
    pub rate_interval_in_seconds: u64,
    /// The schedule.
    pub stream_type: StreamType,
    /// Where the stream stands in its life.
    pub status: StreamStatus,
    /// Whether the sender may cancel.
    pub cancelable_by_sender: bool,
    /// Whether the recipient may cancel.
    pub cancelable_by_recipient: bool,
    /// Whether the sender may name another recipient.
    pub transferable_by_sender: bool,
    /// Whether the recipient may name another recipient.
    pub transferable_by_recipient: bool,
    /// Fee of the platform on what is paid out, in basis points.
    pub fee_percentage: u16,
    /// Fee of the partner on what is paid out, in basis points.
    pub partner_fee_percentage: u16,
    /// When a withdrawal or a top-up last changed an amount of the stream.
    pub last_mutation_time: i64,
    /// When the stream was cancelled, if it was.
    pub cancelled_at: Option<i64>,
    /// Who cancelled the stream, if anyone did.
    pub cancelled_by: Option<Identity>,
}

impl Stream {
    /// The rules that every record keeps: no more withdrawn than deposited, a
    /// start before the end, a cliff between the two, a cliff amount within
    /// the deposit, an interval for a step schedule, and fees that together
    /// take no more than the whole.
    pub open spec fn wf(&self) -> bool {
        &&& self.withdrawn_amount <= self.deposited_amount
        &&& self.start_time < self.end_time
        &&& (self.cliff_time matches Some(cliff) ==> self.start_time <= cliff <= self.end_time)
        &&& self.cliff_amount <= self.deposited_amount
        &&& (self.stream_type is Step ==> self.rate_interval_in_seconds > 0)
        &&& fee_rates_valid(self.fee_percentage, self.partner_fee_percentage)
    }

    /// The first rule of [`Stream::wf`] that the record breaks, if it breaks one.
    pub open spec fn broken_rule(&self) -> Option<StateError> {
        if self.start_time >= self.end_time {
            Some(StateError::InvalidEndTime)
        } else if self.cliff_time matches Some(cliff) && !(self.start_time <= cliff
            <= self.end_time) {
            Some(StateError::InvalidCliffDate)
        } else if self.cliff_amount > self.deposited_amount || self.withdrawn_amount
            > self.deposited_amount {
            Some(StateError::InvalidVestingSchedule)
        } else if self.stream_type is Step && self.rate_interval_in_seconds == 0 {
            Some(StateError::InvalidPaymentFrequency)
        } else if !fee_rates_valid(self.fee_percentage, self.partner_fee_percentage) {
            Some(StateError::PlatformFeeExceedsMaximum)
        } else {
            None
        }
    }

    /// Whether the status is one that no step leads out of.
    pub open spec fn is_terminal(&self) -> bool {
        self.status is Cancelled || self.status is Completed
    }

    /// Whether `next` can be this record at a later time: the parties that
    /// opened it, the asset, the schedule and the permissions are the same,
    /// nothing deposited or withdrawn has been taken back, and the status is
    /// the same or one that a legal step leads to.
    pub open spec fn evolves_to(&self, next: Stream) -> bool {
        &&& next.sender == self.sender
        &&& next.mint == self.mint
        &&& next.stream_type == self.stream_type
        &&& next.start_time == self.start_time
        &&& next.end_time == self.end_time
        &&& next.cliff_time == self.cliff_time
        &&& next.cliff_amount == self.cliff_amount
        &&& next.rate_amount == self.rate_amount
        &&& next.rate_interval_in_seconds == self.rate_interval_in_seconds
        &&& next.cancelable_by_sender == self.cancelable_by_sender
        &&& next.cancelable_by_recipient == self.cancelable_by_recipient
        &&& next.transferable_by_sender == self.transferable_by_sender
        &&& next.transferable_by_recipient == self.transferable_by_recipient
        &&& next.fee_percentage == self.fee_percentage
        &&& next.partner_fee_percentage == self.partner_fee_percentage
        &&& next.deposited_amount >= self.deposited_amount
        &&& next.withdrawn_amount >= self.withdrawn_amount
        &&& (next.status == self.status || legal_transition(self.status, next.status))
    }

    /// The time before which a cliff stream unlocks nothing.
    pub open spec fn cliff_gate(&self) -> int {
        match self.cliff_time {
            Some(cliff) => cliff as int,
            None => self.start_time as int,
        }
    }

    /// What a cliff stream unlocks at once: the cliff amount, or the whole
    /// deposit where the cliff amount is more than that.
    pub open spec fn cliff_release(&self) -> int {
        if self.cliff_amount <= self.deposited_amount {
            self.cliff_amount as int
        } else {
            self.deposited_amount as int
        }
    }

    /// Unlocked at `now` under the linear schedule.
    pub open spec fn linear_streamed(&self, now: i64) -> int {
        linear_amount(
            self.deposited_amount as int,
            self.start_time as int,
            self.end_time as int,
            now as int,
        )
    }

    /// Unlocked at `now` under the cliff schedule: nothing before the cliff,
    /// then the lump sum and, of the rest, its linear share.
    pub open spec fn cliff_streamed(&self, now: i64) -> int {
        if now < self.cliff_gate() {
            0
        } else {
            self.cliff_release() + linear_amount(
                self.deposited_amount - self.cliff_release(),
                self.start_time as int,
                self.end_time as int,
                now as int,
            )
        }
    }

    /// Unlocked at `now` under the step schedule: the rate for every full
    /// interval since the start, and never more than the deposit.
    pub open spec fn step_streamed(&self, now: i64) -> int {
        if now < self.start_time {
            0
        } else {
            let intervals = (now - self.start_time) / (self.rate_interval_in_seconds as int);
            if self.rate_amount * intervals <= self.deposited_amount {
                self.rate_amount * intervals
            } else {
                self.deposited_amount as int
            }
        }
    }

    /// Whether the schedule says how much has unlocked at every time: a step
    /// schedule does so only with an interval that is not zero.
    pub open spec fn schedule_defined(&self) -> bool {
        self.stream_type is Step ==> self.rate_interval_in_seconds > 0
    }

    /// Whether working out the unlocked amount at `now` would divide by zero:
    /// a step stream that has started and has no interval.
    pub open spec fn divides_by_zero(&self, now: i64) -> bool {
        self.stream_type is Step && self.rate_interval_in_seconds == 0 && now >= self.start_time
    }

    /// Unlocked at `now` under the stream's own schedule, whatever has been
    /// withdrawn.
    pub open spec fn streamed_amount(&self, now: i64) -> int {
        match self.stream_type {
            StreamType::Linear => self.linear_streamed(now),
            StreamType::Cliff => self.cliff_streamed(now),
            StreamType::Step => self.step_streamed(now),
            StreamType::Custom => self.linear_streamed(now),
        }
    }

    /// Unlocked at `now` and not yet withdrawn, whatever the status.
    pub open spec fn unclaimed(&self, now: i64) -> int {
        if self.streamed_amount(now) >= self.withdrawn_amount {
            self.streamed_amount(now) - self.withdrawn_amount
        } else {
            0
        }
    }

    /// What the recipient can withdraw at `now`: the unclaimed amount of a
    /// stream that is streaming, and nothing of any other.
    pub open spec fn withdrawable(&self, now: i64) -> int {
        if self.status is Streaming {
            self.unclaimed(now)
        } else {
            0
        }
    }

    /// Whether `authority` is a party that the stream lets cancel.
    pub open spec fn may_cancel(&self, authority: Identity) -> bool {
        ||| self.cancelable_by_sender && authority == self.sender
        ||| self.cancelable_by_recipient && authority == self.recipient
    }

    /// Whether `authority` is a party that the stream lets name another
    /// recipient.
    pub open spec fn may_transfer(&self, authority: Identity) -> bool {
        ||| self.transferable_by_sender && authority == self.sender
        ||| self.transferable_by_recipient && authority == self.recipient
    }

    /// How far the stream is through its time, in basis points.
    pub open spec fn progress(&self, now: i64) -> int {
        linear_amount(10_000, self.start_time as int, self.end_time as int, now as int)
    }

    /// Deposited and not yet withdrawn.
    pub open spec fn remaining(&self) -> int {
        if self.deposited_amount >= self.withdrawn_amount {
            self.deposited_amount - self.withdrawn_amount
        } else {
            0
        }
    }

    /// No schedule ever unlocks more than was deposited, nor less than
    /// nothing.
    pub proof fn lemma_streamed_amount_bounded(&self, now: i64)
        requires
            self.schedule_defined(),
        ensures
            0 <= self.streamed_amount(now) <= self.deposited_amount,
    {
        lemma_linear_amount_bounded(
            self.deposited_amount as int,
            self.start_time as int,
            self.end_time as int,
            now as int,
        );
        lemma_linear_amount_bounded(
            self.deposited_amount - self.cliff_release(),
            self.start_time as int,
            self.end_time as int,
            now as int,
        );
        if self.stream_type is Step && now >= self.start_time {
            let elapsed = now - self.start_time;
            let interval = self.rate_interval_in_seconds as int;
            let rate = self.rate_amount as int;
            assert(0 <= rate * (elapsed / interval)) by (nonlinear_arith)
                requires
                    0 <= rate,
                    0 <= elapsed,
                    0 < interval,
            ;
        }
    }

    /// No schedule ever takes back what it has unlocked: of two times, the
    /// later has unlocked at least as much.
    pub proof fn lemma_streamed_amount_monotonic(&self, earlier: i64, later: i64)
        requires
            self.schedule_defined(),
            earlier <= later,
        ensures
            self.streamed_amount(earlier) <= self.streamed_amount(later),
    {
        lemma_linear_amount_monotonic(
            self.deposited_amount as int,
            self.start_time as int,
            self.end_time as int,
            earlier as int,
            later as int,
        );
        lemma_linear_amount_monotonic(
            self.deposited_amount - self.cliff_release(),
            self.start_time as int,
            self.end_time as int,
            earlier as int,
            later as int,
        );
        self.lemma_streamed_amount_bounded(earlier);
        self.lemma_streamed_amount_bounded(later);
        if self.stream_type is Step && earlier >= self.start_time {
            let e1 = earlier - self.start_time;
            let e2 = later - self.start_time;
            let interval = self.rate_interval_in_seconds as int;
            let rate = self.rate_amount as int;
            assert(rate * (e1 / interval) <= rate * (e2 / interval)) by (nonlinear_arith)
                requires
                    0 <= rate,
                    0 <= e1 <= e2,
                    0 < interval,
            ;
        }
    }

    /// A stream that is cancelled or completed stays so: whatever the record
    /// becomes, its status is the same.
    pub proof fn lemma_terminal_status_is_final(&self, next: Stream)
        requires
            self.is_terminal(),
            self.evolves_to(next),
        ensures
            next.status == self.status,
    {
    }

    /// Nothing has unlocked at the start or before it, but for the lump sum
    /// of a cliff stream whose cliff is at the start.
    pub proof fn lemma_nothing_streamed_before_start(&self, now: i64)
        requires
            self.wf(),
            now <= self.start_time,
        ensures
            !(self.stream_type is Cliff) ==> self.streamed_amount(now) == 0,
            self.stream_type is Cliff ==> self.streamed_amount(now) == if now
                >= self.cliff_gate() {
                self.cliff_amount as int
            } else {
                0
            },
    {
        if now == self.start_time {
            let duration = self.end_time - self.start_time;
            assert(0int / duration == 0) by (nonlinear_arith)
                requires
                    0 < duration,
            ;
            let interval = self.rate_interval_in_seconds as int;
            if interval > 0 {
                assert(0int / interval == 0) by (nonlinear_arith)
                    requires
                        0 < interval,
                ;
            }
            assert(self.deposited_amount * 0 == 0);
            assert((self.deposited_amount - self.cliff_release()) * 0 == 0);
            assert(self.rate_amount * 0 == 0);
        }
    }

    /// Unlocked at `current_time` under the linear schedule.
    fn calculate_linear_amount(&self, current_time: i64) -> (streamed: u64)
        ensures
            streamed == self.linear_streamed(current_time),
            streamed <= self.deposited_amount,
    {
        calculate_streamed_amount(
            self.deposited_amount,
            self.start_time,
            self.end_time,
            current_time,
        )
    }

    /// Unlocked at `current_time` under the cliff schedule.
    fn calculate_cliff_amount(&self, current_time: i64) -> (streamed: u64)
        ensures
            streamed == self.cliff_streamed(current_time),
            streamed <= self.deposited_amount,
    {
        let gate = match self.cliff_time {
            Some(cliff) => cliff,
            None => self.start_time,
        };
        if current_time < gate {
            return 0;
        }
        let cliff_released = if self.cliff_amount <= self.deposited_amount {
            self.cliff_amount
        } else {
            self.deposited_amount
        };
        let remaining_amount = self.deposited_amount - cliff_released;
        let linear_part = calculate_streamed_amount(
            remaining_amount,
            self.start_time,
            self.end_time,
            current_time,
        );
        cliff_released + linear_part
    }

    /// Unlocked at `current_time` under the step schedule, or
    /// `DivisionByZero` where the stream has started and has no interval.
    fn calculate_step_amount(&self, current_time: i64) -> (streamed: Result<u64, StreamFlowError>)
        ensures
            match streamed {
                Ok(amount) => {
                    &&& !(self.rate_interval_in_seconds == 0 && current_time >= self.start_time)
                    &&& amount == self.step_streamed(current_time)
                    &&& amount <= self.deposited_amount
                },
                Err(e) => {
                    &&& self.rate_interval_in_seconds == 0
                    &&& current_time >= self.start_time
                    &&& e == StreamFlowError::DivisionByZero
                },
            },
    {
        if current_time < self.start_time {
            return Ok(0);
        }
        if self.rate_interval_in_seconds == 0 {
            return Err(StreamFlowError::DivisionByZero);
        }
        let elapsed: u64 = (current_time as i128 - self.start_time as i128) as u64;
        let intervals: u64 = elapsed / self.rate_interval_in_seconds;
        let rate: u128 = self.rate_amount as u128;
        assert(0 <= rate * intervals <= u128::MAX) by (nonlinear_arith)
            requires
                0 <= rate <= u64::MAX,
                0 <= intervals <= u64::MAX,
        ;
        let released: u128 = rate * (intervals as u128);
        if released <= self.deposited_amount as u128 {
            Ok(released as u64)
        } else {
            Ok(self.deposited_amount)
        }
    }

    /// Unlocked at `current_time` under a schedule of the stream's own: for
    /// want of such a schedule, what the linear schedule has unlocked.
    fn calculate_custom_amount(&self, current_time: i64) -> (streamed: u64)
        ensures
            streamed == self.linear_streamed(current_time),
            streamed <= self.deposited_amount,
    {
        self.calculate_linear_amount(current_time)
    }

    /// Whether the stream unlocks by the linear schedule for want of one of
    /// its own. A caller that keeps a log should note it there.
    pub fn uses_linear_fallback(&self) -> (fallback: bool)
        ensures
            fallback == (self.stream_type is Custom),
    {
        matches!(self.stream_type, StreamType::Custom)
    }

    /// The total unlocked at `current_time`, whatever has been withdrawn.
    ///
    /// Fails with `DivisionByZero`, and only with it, on a step stream that
    /// has started and has no interval.
    pub fn calculate_streamed_amount(&self, current_time: i64) -> (streamed: Result<
        u64,
        StreamFlowError,
    >)
        ensures
            match streamed {
                Ok(amount) => {
                    &&& !self.divides_by_zero(current_time)
                    &&& amount == self.streamed_amount(current_time)
                    &&& amount <= self.deposited_amount
                },
                Err(e) => self.divides_by_zero(current_time) && e
                    == StreamFlowError::DivisionByZero,
            },
    {
        match self.stream_type {
            StreamType::Linear => Ok(self.calculate_linear_amount(current_time)),
            StreamType::Cliff => Ok(self.calculate_cliff_amount(current_time)),
            StreamType::Step => self.calculate_step_amount(current_time),
            StreamType::Custom => Ok(self.calculate_custom_amount(current_time)),
        }
    }

    /// What has unlocked at `current_time` and was not yet withdrawn,
    /// whatever the status of the stream; nothing where more was withdrawn
    /// than has unlocked. This is what the recipient is owed when the stream
    /// ends; it is not what can be withdrawn, which is nothing unless the
    /// stream is streaming.
    ///
    /// Fails with `DivisionByZero`, and only with it, on a step stream that
    /// has started and has no interval.
    pub fn unclaimed_amount(&self, current_time: i64) -> (unclaimed: Result<u64, StreamFlowError>)
        ensures
            match unclaimed {
                Ok(amount) => {
                    &&& !self.divides_by_zero(current_time)
                    &&& amount == self.unclaimed(current_time)
                    &&& amount <= self.remaining()
                },
                Err(e) => self.divides_by_zero(current_time) && e
                    == StreamFlowError::DivisionByZero,
            },
    {
        match self.calculate_streamed_amount(current_time) {
            Ok(streamed) => {
                if streamed >= self.withdrawn_amount {
                    Ok(streamed - self.withdrawn_amount)
                } else {
                    Ok(0)
                }
            },
            Err(e) => Err(e),
        }
    }

    /// What the recipient can withdraw at `current_time`: nothing unless the
    /// stream is streaming, else what has unlocked less what was withdrawn,
    /// and nothing where more was withdrawn than has unlocked.
    ///
    /// Fails with `DivisionByZero`, and only with it, on a stream that is
    /// streaming by a step schedule, has started and has no interval.
    pub fn calculate_withdrawable_amount(&self, current_time: i64) -> (available: Result<
        u64,
        StreamFlowError,
    >)
        ensures
            match available {
                Ok(amount) => {
                    &&& !(self.status is Streaming && self.divides_by_zero(current_time))
                    &&& amount == self.withdrawable(current_time)
                    &&& amount <= self.remaining()
                },
                Err(e) => {
                    &&& self.status is Streaming
                    &&& self.divides_by_zero(current_time)
                    &&& e == StreamFlowError::DivisionByZero
                },
            },
    {
        if self.status != StreamStatus::Streaming {
            return Ok(0);
        }
        self.unclaimed_amount(current_time)
    }

    /// What the recipient can withdraw at `current_time`; the same as
    /// [`Stream::calculate_withdrawable_amount`].
    pub fn withdrawable_amount(&self, current_time: i64) -> (available: Result<
        u64,
        StreamFlowError,
    >)
        ensures
            match available {
                Ok(amount) => {
                    &&& !(self.status is Streaming && self.divides_by_zero(current_time))
                    &&& amount == self.withdrawable(current_time)
                    &&& amount <= self.remaining()
                },
                Err(e) => {
                    &&& self.status is Streaming
                    &&& self.divides_by_zero(current_time)
                    &&& e == StreamFlowError::DivisionByZero
                },
            },
    {
        self.calculate_withdrawable_amount(current_time)
    }

    /// Whether the stream is streaming.
    pub fn is_active(&self) -> (active: bool)
        ensures
            active == (self.status is Streaming),
    {
        matches!(self.status, StreamStatus::Streaming)
    }

    /// Whether the stream is over: its end has come, or it is completed.
    pub fn has_ended(&self, current_time: i64) -> (ended: bool)
        ensures
            ended == (current_time >= self.end_time || self.status is Completed),
    {
        current_time >= self.end_time || self.status == StreamStatus::Completed
    }

    /// Whether `authority` may cancel the stream now: the stream is neither
    /// cancelled nor completed, and `authority` is a party that it lets
    /// cancel.
    pub fn can_cancel(&self, authority: &Identity) -> (allowed: bool)
        ensures
            allowed == (!self.is_terminal() && self.may_cancel(*authority)),
    {
        match self.status {
            StreamStatus::Streaming | StreamStatus::Paused | StreamStatus::Scheduled => {
                (self.cancelable_by_sender && *authority == self.sender) || (
                self.cancelable_by_recipient && *authority == self.recipient)
            },
            _ => false,
        }
    }

    /// Whether `authority` is a party that the stream lets name another
    /// recipient.
    pub fn can_transfer(&self, authority: &Identity) -> (allowed: bool)
        ensures
            allowed == self.may_transfer(*authority),
    {
        (self.transferable_by_sender && *authority == self.sender) || (
        self.transferable_by_recipient && *authority == self.recipient)
    }

    /// The fees of the platform and of the partner on `amount`, in this
    /// order, each rounded down. Fails with `InvalidFeeConfiguration` where
    /// the two rates together take more than the whole.
    pub fn calculate_fees(&self, amount: u64) -> (fees: Result<(u64, u64), StreamFlowError>)
        ensures
            match fees {
                Ok((platform_fee, partner_fee)) => {
                    &&& fee_rates_valid(self.fee_percentage, self.partner_fee_percentage)
                    &&& platform_fee == fee_amount(amount as int, self.fee_percentage as int)
                    &&& partner_fee == fee_amount(
                        amount as int,
                        self.partner_fee_percentage as int,
                    )
                    &&& platform_fee + partner_fee <= amount
                },
                Err(e) => {
                    &&& !fee_rates_valid(self.fee_percentage, self.partner_fee_percentage)
                    &&& e == StreamFlowError::InvalidFeeConfiguration
                },
            },
    {
        split_fees(amount, self.fee_percentage, self.partner_fee_percentage)
    }

    /// Deposited and not yet withdrawn.
    pub fn remaining_balance(&self) -> (balance: u64)
        ensures
            balance == self.remaining(),
    {
        if self.deposited_amount >= self.withdrawn_amount {
            self.deposited_amount - self.withdrawn_amount
        } else {
            0
        }
    }

    /// How far the stream is through its time, in basis points: 0 before
    /// the start, 10000 from the end on, in between the share of the time
    /// gone by, rounded down.
    pub fn get_progress(&self, current_time: i64) -> (progress: u16)
        ensures
            progress == self.progress(current_time),
            progress <= 10_000,
    {
        let progress = calculate_streamed_amount(
            10_000,
            self.start_time,
            self.end_time,
            current_time,
        );
        progress as u16
    }
}

impl StateValidation for Stream {
    /// `Ok` where the record keeps every rule of [`Stream::wf`], else the
    /// first rule that it breaks.
    fn validate(&self) -> (checked: Result<(), StateError>)
        ensures
            checked is Ok <==> self.wf(),
            checked == match self.broken_rule() {
                Some(e) => Err::<(), StateError>(e),
                None => Ok::<(), StateError>(()),
            },
    {
        if self.start_time >= self.end_time {
            return Err(StateError::InvalidEndTime);
        }
        match self.cliff_time {
            Some(cliff) => {
                if cliff < self.start_time || cliff > self.end_time {
                    return Err(StateError::InvalidCliffDate);
                }
            },
            None => {},
        }
        if self.cliff_amount > self.deposited_amount || self.withdrawn_amount
            > self.deposited_amount {
            return Err(StateError::InvalidVestingSchedule);
        }
        if matches!(self.stream_type, StreamType::Step) && self.rate_interval_in_seconds == 0 {
            return Err(StateError::InvalidPaymentFrequency);
        }
        if self.fee_percentage as u32 + self.partner_fee_percentage as u32 > 10_000 {
            return Err(StateError::PlatformFeeExceedsMaximum);
        }
        Ok(())
    }
}

} // verus!
