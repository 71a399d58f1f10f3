use streamflow::{Identity, StreamFlowError, StreamStatus, TreasuryRole, VestingType};
use streamflow::PaymentFrequency;
use streamflow::state::utils::{has_treasury_permission, is_valid_status_transition};

#[test]
fn error_codes_count_the_variants_from_zero() {
    assert_eq!(StreamFlowError::InvalidStreamConfig.error_code(), 0);
    assert_eq!(StreamFlowError::StreamNotFound.error_code(), 1);
    assert_eq!(StreamFlowError::UnauthorizedAccess.error_code(), 2);
    assert_eq!(StreamFlowError::InvalidAmount.error_code(), 10);
    assert_eq!(StreamFlowError::NoFundsAvailable.error_code(), 14);
    assert_eq!(StreamFlowError::InsufficientWithdrawableAmount.error_code(), 15);
    assert_eq!(StreamFlowError::ArithmeticOverflow.error_code(), 26);
    assert_eq!(StreamFlowError::DivisionByZero.error_code(), 28);
    assert_eq!(StreamFlowError::InvalidFeeConfiguration.error_code(), 34);
    assert_eq!(StreamFlowError::UnknownError.error_code(), 123);
    assert_eq!(StreamFlowError::StreamAlreadyPaused.error_code(), 124);
    assert_eq!(StreamFlowError::InvalidStatusTransition.error_code(), 125);
}

#[test]
fn recoverable_errors() {
    for e in [
        StreamFlowError::NetworkConnectivityIssue,
        StreamFlowError::ExternalServiceUnavailable,
        StreamFlowError::TimeoutOccurred,
        StreamFlowError::ServiceDegraded,
        StreamFlowError::RateLimitExceeded,
        StreamFlowError::SystemMaintenanceMode,
    ] {
        assert!(e.is_recoverable());
    }
    assert!(!StreamFlowError::InvalidAmount.is_recoverable());
    assert!(!StreamFlowError::AutomatedPaymentFailed.is_recoverable());
    assert!(!StreamFlowError::ArithmeticOverflow.is_recoverable());
}

#[test]
fn errors_that_ask_for_a_retry() {
    for e in [
        StreamFlowError::NetworkConnectivityIssue,
        StreamFlowError::ExternalServiceUnavailable,
        StreamFlowError::TimeoutOccurred,
        StreamFlowError::AutomatedPaymentFailed,
        StreamFlowError::WebhookDeliveryFailed,
    ] {
        assert!(e.requires_retry());
    }
    assert!(!StreamFlowError::ServiceDegraded.requires_retry());
    assert!(!StreamFlowError::NoFundsAvailable.requires_retry());
}

#[test]
fn user_errors() {
    for e in [
        StreamFlowError::InvalidStreamConfig,
        StreamFlowError::InvalidRecipient,
        StreamFlowError::InvalidDuration,
        StreamFlowError::InvalidAmount,
        StreamFlowError::InvalidStartTime,
        StreamFlowError::InvalidEndTime,
        StreamFlowError::InsufficientFunds,
        StreamFlowError::UnauthorizedAccess,
        StreamFlowError::InvalidTokenMint,
        StreamFlowError::InvalidVestingSchedule,
        StreamFlowError::InvalidCliffPeriod,
    ] {
        assert!(e.is_user_error());
        assert!(!e.is_system_error());
    }
    assert!(!StreamFlowError::DivisionByZero.is_user_error());
    assert!(!StreamFlowError::StreamNotFound.is_user_error());
}

#[test]
fn system_errors() {
    for e in [
        StreamFlowError::ArithmeticOverflow,
        StreamFlowError::ArithmeticUnderflow,
        StreamFlowError::DivisionByZero,
        StreamFlowError::SystemResourceLimitExceeded,
        StreamFlowError::DataIntegrityCheckFailed,
        StreamFlowError::ConfigurationValidationFailed,
    ] {
        assert!(e.is_system_error());
        assert!(!e.is_user_error());
    }
    assert!(!StreamFlowError::InvalidAmount.is_system_error());
    assert!(!StreamFlowError::UnknownError.is_system_error());
}

#[test]
fn defaults() {
    assert_eq!(StreamStatus::default(), StreamStatus::Scheduled);
    assert_eq!(VestingType::default(), VestingType::Linear);
    assert_eq!(PaymentFrequency::default(), PaymentFrequency::PerSecond);
    assert_eq!(TreasuryRole::default(), TreasuryRole::Viewer);
    assert_eq!(Identity::default(), Identity::new([0; 32]));
}

#[test]
fn payment_periods() {
    assert_eq!(PaymentFrequency::Weekly.to_seconds(), 604_800);
    assert_eq!(PaymentFrequency::Monthly.to_seconds(), 2_592_000);
}

#[test]
fn identities_are_equal_when_their_bytes_are() {
    let mut bytes = [0u8; 32];
    bytes[31] = 1;
    let a = Identity::new(bytes);
    let b = Identity::new(bytes);
    assert_eq!(a, b);
    assert!(a.same_as(&b));
    assert_eq!(a.to_bytes(), bytes);
    assert_ne!(a, Identity::default());
    assert!(!a.same_as(&Identity::default()));
    bytes[0] = 1;
    assert_ne!(a, Identity::new(bytes));
}

#[test]
fn every_legal_step_and_no_other() {
    let all = [
        StreamStatus::Scheduled,
        StreamStatus::Streaming,
        StreamStatus::Paused,
        StreamStatus::Cancelled,
        StreamStatus::Completed,
    ];
    let legal = [
        (StreamStatus::Scheduled, StreamStatus::Streaming),
        (StreamStatus::Scheduled, StreamStatus::Cancelled),
        (StreamStatus::Streaming, StreamStatus::Paused),
        (StreamStatus::Streaming, StreamStatus::Cancelled),
        (StreamStatus::Streaming, StreamStatus::Completed),
        (StreamStatus::Paused, StreamStatus::Streaming),
        (StreamStatus::Paused, StreamStatus::Cancelled),
    ];
    for from in all {
        for to in all {
            assert_eq!(is_valid_status_transition(from, to), legal.contains(&(from, to)));
        }
    }
}

#[test]
fn every_role_may_do_what_a_lower_role_may() {
    let roles = [TreasuryRole::Viewer, TreasuryRole::Member, TreasuryRole::Admin, TreasuryRole::Owner];
    for (i, role) in roles.iter().enumerate() {
        for (j, required) in roles.iter().enumerate() {
            assert_eq!(has_treasury_permission(*role, *required), i >= j);
        }
    }
}
