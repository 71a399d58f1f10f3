use streamflow::state::utils::{calculate_streamed_amount, calculate_vested_amount};
use streamflow::{Identity, Stream, StreamFlowError, StreamStatus, StreamType, VestingType};

fn party(tag: u8) -> Identity {
    Identity::new([tag; 32])
}

fn stream(stream_type: StreamType) -> Stream {
    Stream {
        sender: party(1),
        recipient: party(2),
        mint: party(3),
        deposited_amount: 1000,
        withdrawn_amount: 0,
        start_time: 100,
        end_time: 200,
        cliff_time: None,
        cliff_amount: 0,
        rate_amount: 0,
        rate_interval_in_seconds: 0,
        stream_type,
        status: StreamStatus::Streaming,
        cancelable_by_sender: true,
        cancelable_by_recipient: false,
        transferable_by_sender: true,
        transferable_by_recipient: false,
        fee_percentage: 0,
        partner_fee_percentage: 0,
        last_mutation_time: 100,
        cancelled_at: None,
        cancelled_by: None,
    }
}

fn every_kind() -> Vec<Stream> {
    let linear = stream(StreamType::Linear);
    let custom = stream(StreamType::Custom);
    let mut cliff = stream(StreamType::Cliff);
    cliff.cliff_time = Some(130);
    cliff.cliff_amount = 250;
    let mut step = stream(StreamType::Step);
    step.rate_amount = 70;
    step.rate_interval_in_seconds = 7;
    vec![linear, custom, cliff, step]
}

#[test]
fn linear_stream_unlocks_in_proportion_to_time() {
    let s = stream(StreamType::Linear);
    assert_eq!(s.withdrawable_amount(150), Ok(500));
    assert_eq!(s.withdrawable_amount(50), Ok(0));
    assert_eq!(s.withdrawable_amount(250), Ok(1000));
    assert_eq!(s.calculate_streamed_amount(100), Ok(0));
    assert_eq!(s.calculate_streamed_amount(101), Ok(10));
    assert_eq!(s.calculate_streamed_amount(199), Ok(990));
    assert_eq!(s.calculate_streamed_amount(200), Ok(1000));
}

#[test]
fn linear_stream_after_partial_withdrawal() {
    let mut s = stream(StreamType::Linear);
    s.withdrawn_amount = 300;
    assert_eq!(s.withdrawable_amount(150), Ok(200));
    assert_eq!(s.calculate_streamed_amount(150), Ok(500));
}

#[test]
fn withdrawable_is_zero_where_more_was_withdrawn_than_unlocked() {
    let mut s = stream(StreamType::Linear);
    s.withdrawn_amount = 600;
    assert_eq!(s.withdrawable_amount(150), Ok(0));
    assert_eq!(s.calculate_withdrawable_amount(150), Ok(0));
}

#[test]
fn cliff_gate_without_lump_sum() {
    let mut s = stream(StreamType::Cliff);
    s.cliff_time = Some(150);
    assert_eq!(s.withdrawable_amount(140), Ok(0));
    assert_eq!(s.withdrawable_amount(150), Ok(500));
    assert_eq!(s.withdrawable_amount(200), Ok(1000));
}

#[test]
fn cliff_releases_lump_sum_and_linear_share_of_the_rest() {
    let mut s = stream(StreamType::Cliff);
    s.cliff_time = Some(150);
    s.cliff_amount = 200;
    assert_eq!(s.calculate_streamed_amount(149), Ok(0));
    assert_eq!(s.calculate_streamed_amount(150), Ok(600));
    assert_eq!(s.calculate_streamed_amount(175), Ok(800));
    assert_eq!(s.calculate_streamed_amount(200), Ok(1000));
    assert_eq!(s.calculate_streamed_amount(5000), Ok(1000));
}

#[test]
fn cliff_at_the_start_releases_the_lump_sum_there() {
    let mut s = stream(StreamType::Cliff);
    s.cliff_time = Some(100);
    s.cliff_amount = 200;
    assert_eq!(s.calculate_streamed_amount(99), Ok(0));
    assert_eq!(s.calculate_streamed_amount(100), Ok(200));
}

#[test]
fn cliff_stream_without_cliff_time_has_its_cliff_at_the_start() {
    let mut s = stream(StreamType::Cliff);
    s.cliff_amount = 400;
    assert_eq!(s.calculate_streamed_amount(99), Ok(0));
    assert_eq!(s.calculate_streamed_amount(100), Ok(400));
    assert_eq!(s.calculate_streamed_amount(150), Ok(700));
}

#[test]
fn cliff_amount_above_the_deposit_unlocks_the_deposit_only() {
    let mut s = stream(StreamType::Cliff);
    s.cliff_time = Some(120);
    s.cliff_amount = 5000;
    assert_eq!(s.calculate_streamed_amount(120), Ok(1000));
    assert_eq!(s.calculate_streamed_amount(300), Ok(1000));
}

#[test]
fn step_stream_unlocks_per_full_interval() {
    let mut s = stream(StreamType::Step);
    s.rate_amount = 100;
    s.rate_interval_in_seconds = 10;
    assert_eq!(s.calculate_streamed_amount(99), Ok(0));
    assert_eq!(s.calculate_streamed_amount(100), Ok(0));
    assert_eq!(s.calculate_streamed_amount(109), Ok(0));
    assert_eq!(s.calculate_streamed_amount(110), Ok(100));
    assert_eq!(s.calculate_streamed_amount(155), Ok(500));
    assert_eq!(s.calculate_streamed_amount(199), Ok(900));
    assert_eq!(s.calculate_streamed_amount(200), Ok(1000));
    assert_eq!(s.calculate_streamed_amount(100_000), Ok(1000));
}

#[test]
fn step_stream_does_not_overflow_on_the_largest_rate() {
    let mut s = stream(StreamType::Step);
    s.deposited_amount = u64::MAX;
    s.rate_amount = u64::MAX;
    s.rate_interval_in_seconds = 1;
    s.start_time = i64::MIN;
    assert_eq!(s.calculate_streamed_amount(i64::MIN), Ok(0));
    assert_eq!(s.calculate_streamed_amount(i64::MAX), Ok(u64::MAX));
}

#[test]
fn step_stream_without_interval_reports_division_by_zero() {
    let s = stream(StreamType::Step);
    assert_eq!(s.calculate_streamed_amount(99), Ok(0));
    assert_eq!(s.calculate_streamed_amount(100), Err(StreamFlowError::DivisionByZero));
    assert_eq!(s.calculate_withdrawable_amount(150), Err(StreamFlowError::DivisionByZero));
    assert_eq!(s.withdrawable_amount(150), Err(StreamFlowError::DivisionByZero));
    let mut paused = s;
    paused.status = StreamStatus::Paused;
    assert_eq!(paused.withdrawable_amount(150), Ok(0));
}

#[test]
fn custom_stream_falls_back_to_linear() {
    let custom = stream(StreamType::Custom);
    let linear = stream(StreamType::Linear);
    assert!(custom.uses_linear_fallback());
    assert!(!linear.uses_linear_fallback());
    let mut t = 0;
    while t <= 300 {
        assert_eq!(custom.calculate_streamed_amount(t), linear.calculate_streamed_amount(t));
        t += 1;
    }
}

#[test]
fn linear_amount_rounds_down() {
    assert_eq!(calculate_streamed_amount(1000, 0, 3, 1), 333);
    assert_eq!(calculate_streamed_amount(1000, 0, 3, 2), 666);
    assert_eq!(calculate_streamed_amount(1, 0, 1000, 999), 0);
    assert_eq!(calculate_streamed_amount(1, 0, 1000, 1000), 1);
}

#[test]
fn linear_amount_is_computed_in_128_bits() {
    assert_eq!(calculate_streamed_amount(u64::MAX, i64::MIN, i64::MAX, 0), 1u64 << 63);
    assert_eq!(calculate_streamed_amount(u64::MAX, 0, i64::MAX, i64::MAX - 1), u64::MAX - 3);
    assert_eq!(calculate_streamed_amount(u64::MAX, i64::MIN, i64::MAX, i64::MIN), 0);
    assert_eq!(calculate_streamed_amount(u64::MAX, i64::MIN, i64::MAX, i64::MAX), u64::MAX);
}

#[test]
fn schedule_without_duration_is_fully_unlocked_at_its_start() {
    assert_eq!(calculate_streamed_amount(1000, 100, 100, 99), 0);
    assert_eq!(calculate_streamed_amount(1000, 100, 100, 100), 1000);
    assert_eq!(calculate_streamed_amount(1000, 100, 50, 100), 1000);
    let mut s = stream(StreamType::Linear);
    s.end_time = s.start_time;
    assert_eq!(s.calculate_streamed_amount(100), Ok(1000));
}

#[test]
fn nothing_unlocks_before_the_start() {
    for s in every_kind() {
        assert_eq!(s.calculate_streamed_amount(i64::MIN), Ok(0));
        assert_eq!(s.calculate_streamed_amount(99), Ok(0));
        assert_eq!(s.calculate_streamed_amount(100), Ok(0));
    }
}

#[test]
fn streamed_amount_never_decreases_with_time() {
    for s in every_kind() {
        let mut last = 0;
        let mut t = 0;
        while t <= 400 {
            let now = s.calculate_streamed_amount(t).unwrap();
            assert!(last <= now);
            last = now;
            t += 1;
        }
    }
}

#[test]
fn streamed_amount_never_exceeds_the_deposit() {
    for s in every_kind() {
        let mut t = -50;
        while t <= 400 {
            assert!(s.calculate_streamed_amount(t).unwrap() <= s.deposited_amount);
            t += 1;
        }
        assert!(s.calculate_streamed_amount(i64::MAX).unwrap() <= s.deposited_amount);
    }
}

#[test]
fn vested_amount_by_kind() {
    assert_eq!(calculate_vested_amount(1000, VestingType::Linear, 0, None, 100, 50), 500);
    assert_eq!(calculate_vested_amount(1000, VestingType::Custom, 0, Some(80), 100, 25), 250);
    assert_eq!(calculate_vested_amount(1000, VestingType::Cliff, 0, Some(80), 100, 79), 0);
    assert_eq!(calculate_vested_amount(1000, VestingType::Cliff, 0, Some(80), 100, 80), 1000);
    assert_eq!(calculate_vested_amount(1000, VestingType::Cliff, 0, None, 100, 100), 0);
}

#[test]
fn progress_in_basis_points() {
    let s = stream(StreamType::Linear);
    assert_eq!(s.get_progress(99), 0);
    assert_eq!(s.get_progress(100), 0);
    assert_eq!(s.get_progress(125), 2500);
    assert_eq!(s.get_progress(133), 3300);
    assert_eq!(s.get_progress(199), 9900);
    assert_eq!(s.get_progress(200), 10000);
    assert_eq!(s.get_progress(i64::MAX), 10000);
}

#[test]
fn remaining_balance_and_end() {
    let mut s = stream(StreamType::Linear);
    assert_eq!(s.remaining_balance(), 1000);
    s.withdrawn_amount = 400;
    assert_eq!(s.remaining_balance(), 600);
    s.withdrawn_amount = 1200;
    assert_eq!(s.remaining_balance(), 0);
    assert!(!s.has_ended(199));
    assert!(s.has_ended(200));
    s.status = StreamStatus::Completed;
    assert!(s.has_ended(0));
    assert!(!s.is_active());
    s.status = StreamStatus::Streaming;
    assert!(s.is_active());
}

#[test]
fn nothing_is_withdrawable_unless_the_stream_is_streaming() {
    for status in [
        StreamStatus::Scheduled,
        StreamStatus::Paused,
        StreamStatus::Cancelled,
        StreamStatus::Completed,
    ] {
        for mut s in every_kind() {
            s.status = status;
            for now in [i64::MIN, 99, 100, 150, 200, 300, i64::MAX] {
                assert_eq!(s.calculate_withdrawable_amount(now), Ok(0));
                assert_eq!(s.withdrawable_amount(now), Ok(0));
            }
        }
    }
}

#[test]
fn paused_stream_has_nothing_withdrawable_though_half_is_unclaimed() {
    let mut s = stream(StreamType::Linear);
    s.status = StreamStatus::Paused;
    assert_eq!(s.calculate_withdrawable_amount(150), Ok(0));
    assert_eq!(s.unclaimed_amount(150), Ok(500));
    s.status = StreamStatus::Streaming;
    assert_eq!(s.calculate_withdrawable_amount(150), Ok(500));
    assert_eq!(s.unclaimed_amount(150), Ok(500));
}

#[test]
fn unclaimed_amount_does_not_depend_on_the_status() {
    for status in [
        StreamStatus::Scheduled,
        StreamStatus::Streaming,
        StreamStatus::Paused,
        StreamStatus::Cancelled,
        StreamStatus::Completed,
    ] {
        let mut s = stream(StreamType::Linear);
        s.status = status;
        s.withdrawn_amount = 100;
        assert_eq!(s.unclaimed_amount(99), Ok(0));
        assert_eq!(s.unclaimed_amount(105), Ok(0));
        assert_eq!(s.unclaimed_amount(150), Ok(400));
        assert_eq!(s.unclaimed_amount(200), Ok(900));
    }
}

#[test]
fn withdrawable_and_calculated_withdrawable_agree() {
    for s in every_kind() {
        let mut t = 0;
        while t <= 300 {
            assert_eq!(s.withdrawable_amount(t), s.calculate_withdrawable_amount(t));
            t += 1;
        }
    }
}

#[test]
fn step_stream_without_interval_divides_only_where_the_amount_is_worked_out() {
    let mut s = stream(StreamType::Step);
    s.status = StreamStatus::Completed;
    assert_eq!(s.calculate_withdrawable_amount(150), Ok(0));
    assert_eq!(s.unclaimed_amount(150), Err(StreamFlowError::DivisionByZero));
    assert_eq!(s.unclaimed_amount(99), Ok(0));
}
