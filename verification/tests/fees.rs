use streamflow::state::utils::{calculate_platform_fee, split_fees};
use streamflow::{Identity, Stream, StreamFlowError, StreamStatus, StreamType};

fn stream_with_fees(fee_percentage: u16, partner_fee_percentage: u16) -> Stream {
    Stream {
        sender: Identity::new([1; 32]),
        recipient: Identity::new([2; 32]),
        mint: Identity::new([3; 32]),
        deposited_amount: 1000,
        withdrawn_amount: 0,
        start_time: 100,
        end_time: 200,
        cliff_time: None,
        cliff_amount: 0,
        rate_amount: 0,
        rate_interval_in_seconds: 0,
        stream_type: StreamType::Linear,
        status: StreamStatus::Streaming,
        cancelable_by_sender: true,
        cancelable_by_recipient: false,
        transferable_by_sender: true,
        transferable_by_recipient: false,
        fee_percentage,
        partner_fee_percentage,
        last_mutation_time: 100,
        cancelled_at: None,
        cancelled_by: None,
    }
}

#[test]
fn fees_are_rounded_down() {
    assert_eq!(split_fees(1000, 25, 10), Ok((2, 1)));
    assert_eq!(split_fees(399, 25, 10), Ok((0, 0)));
    assert_eq!(split_fees(400, 25, 10), Ok((1, 0)));
    assert_eq!(split_fees(999, 10_000, 0), Ok((999, 0)));
    assert_eq!(split_fees(u64::MAX, 5_000, 5_000), Ok((u64::MAX / 2, u64::MAX / 2)));
    assert_eq!(split_fees(0, 5_000, 5_000), Ok((0, 0)));
}

#[test]
fn fee_rates_above_the_whole_are_refused() {
    assert_eq!(split_fees(1000, 5_000, 5_001), Err(StreamFlowError::InvalidFeeConfiguration));
    assert_eq!(split_fees(1000, 10_001, 0), Err(StreamFlowError::InvalidFeeConfiguration));
    assert_eq!(split_fees(0, u16::MAX, u16::MAX), Err(StreamFlowError::InvalidFeeConfiguration));
    assert_eq!(split_fees(1000, 5_000, 5_000), Ok((500, 500)));
}

#[test]
fn fees_never_exceed_the_amount() {
    let amounts = [0u64, 1, 2, 3, 9_999, 10_000, 10_001, 123_456_789, u64::MAX - 1, u64::MAX];
    let rates = [0u16, 1, 49, 50, 2_500, 4_999, 5_000, 9_999, 10_000];
    for amount in amounts {
        for fee in rates {
            for partner in rates {
                match split_fees(amount, fee, partner) {
                    Ok((platform_fee, partner_fee)) => {
                        assert!(fee as u32 + partner as u32 <= 10_000);
                        assert!(platform_fee as u128 + partner_fee as u128 <= amount as u128);
                    }
                    Err(e) => {
                        assert!(fee as u32 + partner as u32 > 10_000);
                        assert_eq!(e, StreamFlowError::InvalidFeeConfiguration);
                    }
                }
            }
        }
    }
}

#[test]
fn stream_fees_follow_its_rates() {
    let s = stream_with_fees(50, 25);
    assert_eq!(s.calculate_fees(10_000), Ok((50, 25)));
    assert_eq!(s.calculate_fees(199), Ok((0, 0)));
    let free = stream_with_fees(0, 0);
    assert_eq!(free.calculate_fees(u64::MAX), Ok((0, 0)));
    let broken = stream_with_fees(9_000, 2_000);
    assert_eq!(broken.calculate_fees(10_000), Err(StreamFlowError::InvalidFeeConfiguration));
}

#[test]
fn platform_fee_of_large_amounts() {
    assert_eq!(calculate_platform_fee(u64::MAX, 10_000), u64::MAX);
    assert_eq!(calculate_platform_fee(u64::MAX, 1), u64::MAX / 10_000);
    assert_eq!(calculate_platform_fee(1, 20_000), 2);
}
