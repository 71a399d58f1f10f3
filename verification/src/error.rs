//! The failures that the ledger reports.

use vstd::prelude::*;

verus! {

/// Every failure that an operation of the ledger can report.
///
/// The order of the variants is fixed: [`StreamFlowError::error_code`] numbers
/// them from zero in the order in which they are written here.
#[derive(Clone, Copy, Debug, PartialEq, Eq, Structural)]
pub enum StreamFlowError {
    /// Invalid stream configuration.
    InvalidStreamConfig,
    /// Stream not found.
    StreamNotFound,
    /// Unauthorized access to stream.
    UnauthorizedAccess,
    /// Stream is already initialized.
    StreamAlreadyInitialized,
    /// Stream is not active.
    StreamNotActive,
    /// Stream has already been cancelled.
    StreamAlreadyCancelled,
    /// Stream has already been completed.
    StreamAlreadyCompleted,
    /// Insufficient funds for stream creation.
    InsufficientFunds,
    /// Invalid recipient address.
    InvalidRecipient,
    /// Invalid stream duration.
    InvalidDuration,
    /// Invalid stream amount.
    InvalidAmount,
    /// Stream start time must be in the future.
    InvalidStartTime,
    /// Stream end time must be after start time.
    InvalidEndTime,
    /// Cannot withdraw before cliff period.
    CliffPeriodNotReached,
    /// No funds available for withdrawal.
    NoFundsAvailable,
    /// Withdrawal amount exceeds available balance.
    InsufficientWithdrawableAmount,
    /// Stream cannot be cancelled after completion.
    CannotCancelCompletedStream,
    /// Only stream creator can cancel.
    OnlyCreatorCanCancel,
    /// Only stream recipient can withdraw.
    OnlyRecipientCanWithdraw,
    /// Stream is paused.
    StreamPaused,
    /// Stream is not paused.
    StreamNotPaused,
    /// Cannot pause completed stream.
    CannotPauseCompletedStream,
    /// Cannot resume cancelled stream.
    CannotResumeCancelledStream,
    /// Invalid token mint.
    InvalidTokenMint,
    /// Token account not found.
    TokenAccountNotFound,
    /// Invalid token account owner.
    InvalidTokenAccountOwner,
    /// Arithmetic overflow.
    ArithmeticOverflow,
    /// Arithmetic underflow.
    ArithmeticUnderflow,
    /// Division by zero.
    DivisionByZero,
    /// Invalid vesting schedule.
    InvalidVestingSchedule,
    /// Vesting cliff cannot be greater than duration.
    InvalidCliffPeriod,
    /// Stream rate calculation failed.
    StreamRateCalculationFailed,
    /// Invalid stream type.
    InvalidStreamType,
    /// Stream modification not allowed.
    StreamModificationNotAllowed,
    /// Invalid fee configuration.
    InvalidFeeConfiguration,
    /// Fee calculation failed.
    FeeCalculationFailed,
    /// Treasury account not found.
    TreasuryAccountNotFound,
    /// Invalid treasury configuration.
    InvalidTreasuryConfiguration,
    /// Multisig threshold not met.
    MultisigThresholdNotMet,
    /// Invalid multisig configuration.
    InvalidMultisigConfiguration,
    /// Proposal not found.
    ProposalNotFound,
    /// Proposal already executed.
    ProposalAlreadyExecuted,
    /// Proposal voting period expired.
    ProposalVotingExpired,
    /// Insufficient voting power.
    InsufficientVotingPower,
    /// Already voted on proposal.
    AlreadyVoted,
    /// Invalid proposal type.
    InvalidProposalType,
    /// Proposal execution failed.
    ProposalExecutionFailed,
    /// Stream template not found.
    StreamTemplateNotFound,
    /// Invalid template configuration.
    InvalidTemplateConfiguration,
    /// Template already exists.
    TemplateAlreadyExists,
    /// Cannot delete template with active streams.
    CannotDeleteActiveTemplate,
    /// Batch operation limit exceeded.
    BatchOperationLimitExceeded,
    /// Invalid batch operation.
    InvalidBatchOperation,
    /// Batch operation partially failed.
    BatchOperationPartialFailure,
    /// Stream metadata too large.
    StreamMetadataTooLarge,
    /// Invalid metadata format.
    InvalidMetadataFormat,
    /// Escrow account not found.
    EscrowAccountNotFound,
    /// Invalid escrow configuration.
    InvalidEscrowConfiguration,
    /// Escrow release conditions not met.
    EscrowReleaseConditionsNotMet,
    /// Oracle price feed not found.
    OraclePriceFeedNotFound,
    /// Invalid oracle configuration.
    InvalidOracleConfiguration,
    /// Oracle price data stale.
    OraclePriceDataStale,
    /// Price deviation too high.
    PriceDeviationTooHigh,
    /// Slippage tolerance exceeded.
    SlippageToleranceExceeded,
    /// Liquidity pool not found.
    LiquidityPoolNotFound,
    /// Insufficient liquidity.
    InsufficientLiquidity,
    /// Swap failed.
    SwapFailed,
    /// Invalid swap configuration.
    InvalidSwapConfiguration,
    /// Automated payment failed.
    AutomatedPaymentFailed,
    /// Payment schedule not found.
    PaymentScheduleNotFound,
    /// Invalid payment schedule.
    InvalidPaymentSchedule,
    /// Recurring payment limit exceeded.
    RecurringPaymentLimitExceeded,
    /// Payment authorization expired.
    PaymentAuthorizationExpired,
    /// Invalid payment method.
    InvalidPaymentMethod,
    /// Cross-chain bridge not available.
    CrossChainBridgeNotAvailable,
    /// Bridge transaction failed.
    BridgeTransactionFailed,
    /// Invalid bridge configuration.
    InvalidBridgeConfiguration,
    /// Destination chain not supported.
    DestinationChainNotSupported,
    /// Bridge fee calculation failed.
    BridgeFeeCalculationFailed,
    /// Governance token not found.
    GovernanceTokenNotFound,
    /// Invalid governance configuration.
    InvalidGovernanceConfiguration,
    /// Voting power calculation failed.
    VotingPowerCalculationFailed,
    /// Quorum not reached.
    QuorumNotReached,
    /// Proposal creation failed.
    ProposalCreationFailed,
    /// Invalid timelock configuration.
    InvalidTimelockConfiguration,
    /// Timelock period not elapsed.
    TimelockPeriodNotElapsed,
    /// Emergency pause activated.
    EmergencyPauseActivated,
    /// System maintenance mode.
    SystemMaintenanceMode,
    /// Rate limit exceeded.
    RateLimitExceeded,
    /// Invalid API key.
    InvalidApiKey,
    /// API quota exceeded.
    ApiQuotaExceeded,
    /// Webhook delivery failed.
    WebhookDeliveryFailed,
    /// Invalid webhook configuration.
    InvalidWebhookConfiguration,
    /// Notification service unavailable.
    NotificationServiceUnavailable,
    /// Invalid notification configuration.
    InvalidNotificationConfiguration,
    /// Analytics data not available.
    AnalyticsDataNotAvailable,
    /// Report generation failed.
    ReportGenerationFailed,
    /// Export format not supported.
    ExportFormatNotSupported,
    /// Data integrity check failed.
    DataIntegrityCheckFailed,
    /// Backup creation failed.
    BackupCreationFailed,
    /// Restore operation failed.
    RestoreOperationFailed,
    /// Version compatibility check failed.
    VersionCompatibilityCheckFailed,
    /// Migration failed.
    MigrationFailed,
    /// Configuration validation failed.
    ConfigurationValidationFailed,
    /// System resource limit exceeded.
    SystemResourceLimitExceeded,
    /// Network connectivity issue.
    NetworkConnectivityIssue,
    /// External service unavailable.
    ExternalServiceUnavailable,
    /// Timeout occurred.
    TimeoutOccurred,
    /// Retry limit exceeded.
    RetryLimitExceeded,
    /// Circuit breaker activated.
    CircuitBreakerActivated,
    /// Health check failed.
    HealthCheckFailed,
    /// Service degraded.
    ServiceDegraded,
    /// Capacity limit reached.
    CapacityLimitReached,
    /// Resource allocation failed.
    ResourceAllocationFailed,
    /// Permission denied.
    PermissionDenied,
    /// Access token expired.
    AccessTokenExpired,
    /// Invalid signature.
    InvalidSignature,
    /// Nonce already used.
    NonceAlreadyUsed,
    /// Request expired.
    RequestExpired,
    /// Invalid request format.
    InvalidRequestFormat,
    /// Unsupported operation.
    UnsupportedOperation,
    /// Feature not enabled.
    FeatureNotEnabled,
    /// Deprecated functionality.
    DeprecatedFunctionality,
    /// Unknown error occurred.
    UnknownError,
    /// Stream is already paused.
    StreamAlreadyPaused,
    /// Stream status does not allow this step.
    InvalidStatusTransition,
}

/// Result of an operation that can fail with a [`StreamFlowError`].
pub type StreamFlowResult<T> = Result<T, StreamFlowError>;

impl StreamFlowError {
    /// The position of this failure in the list of variants, counted from zero.
    pub open spec fn code(self) -> u32 {
        match self {
            StreamFlowError::InvalidStreamConfig => 0u32,
            StreamFlowError::StreamNotFound => 1u32,
            StreamFlowError::UnauthorizedAccess => 2u32,
            StreamFlowError::StreamAlreadyInitialized => 3u32,
            StreamFlowError::StreamNotActive => 4u32,
            StreamFlowError::StreamAlreadyCancelled => 5u32,
            StreamFlowError::StreamAlreadyCompleted => 6u32,
            StreamFlowError::InsufficientFunds => 7u32,
            StreamFlowError::InvalidRecipient => 8u32,
            StreamFlowError::InvalidDuration => 9u32,
            StreamFlowError::InvalidAmount => 10u32,
            StreamFlowError::InvalidStartTime => 11u32,
            StreamFlowError::InvalidEndTime => 12u32,
            StreamFlowError::CliffPeriodNotReached => 13u32,
            StreamFlowError::NoFundsAvailable => 14u32,
            StreamFlowError::InsufficientWithdrawableAmount => 15u32,
            StreamFlowError::CannotCancelCompletedStream => 16u32,
            StreamFlowError::OnlyCreatorCanCancel => 17u32,
            StreamFlowError::OnlyRecipientCanWithdraw => 18u32,
            StreamFlowError::StreamPaused => 19u32,
            StreamFlowError::StreamNotPaused => 20u32,
            StreamFlowError::CannotPauseCompletedStream => 21u32,
            StreamFlowError::CannotResumeCancelledStream => 22u32,
            StreamFlowError::InvalidTokenMint => 23u32,
            StreamFlowError::TokenAccountNotFound => 24u32,
            StreamFlowError::InvalidTokenAccountOwner => 25u32,
            StreamFlowError::ArithmeticOverflow => 26u32,
            StreamFlowError::ArithmeticUnderflow => 27u32,
            StreamFlowError::DivisionByZero => 28u32,
            StreamFlowError::InvalidVestingSchedule => 29u32,
            StreamFlowError::InvalidCliffPeriod => 30u32,
            StreamFlowError::StreamRateCalculationFailed => 31u32,
            StreamFlowError::InvalidStreamType => 32u32,
            StreamFlowError::StreamModificationNotAllowed => 33u32,
            StreamFlowError::InvalidFeeConfiguration => 34u32,
            StreamFlowError::FeeCalculationFailed => 35u32,
            StreamFlowError::TreasuryAccountNotFound => 36u32,
            StreamFlowError::InvalidTreasuryConfiguration => 37u32,
            StreamFlowError::MultisigThresholdNotMet => 38u32,
            StreamFlowError::InvalidMultisigConfiguration => 39u32,
            StreamFlowError::ProposalNotFound => 40u32,
            StreamFlowError::ProposalAlreadyExecuted => 41u32,
            StreamFlowError::ProposalVotingExpired => 42u32,
            StreamFlowError::InsufficientVotingPower => 43u32,
            StreamFlowError::AlreadyVoted => 44u32,
            StreamFlowError::InvalidProposalType => 45u32,
            StreamFlowError::ProposalExecutionFailed => 46u32,
            StreamFlowError::StreamTemplateNotFound => 47u32,
            StreamFlowError::InvalidTemplateConfiguration => 48u32,
            StreamFlowError::TemplateAlreadyExists => 49u32,
            StreamFlowError::CannotDeleteActiveTemplate => 50u32,
            StreamFlowError::BatchOperationLimitExceeded => 51u32,
            StreamFlowError::InvalidBatchOperation => 52u32,
            StreamFlowError::BatchOperationPartialFailure => 53u32,
            StreamFlowError::StreamMetadataTooLarge => 54u32,
            StreamFlowError::InvalidMetadataFormat => 55u32,
            StreamFlowError::EscrowAccountNotFound => 56u32,
            StreamFlowError::InvalidEscrowConfiguration => 57u32,
            StreamFlowError::EscrowReleaseConditionsNotMet => 58u32,
            StreamFlowError::OraclePriceFeedNotFound => 59u32,
            StreamFlowError::InvalidOracleConfiguration => 60u32,
            StreamFlowError::OraclePriceDataStale => 61u32,
            StreamFlowError::PriceDeviationTooHigh => 62u32,
            StreamFlowError::SlippageToleranceExceeded => 63u32,
            StreamFlowError::LiquidityPoolNotFound => 64u32,
            StreamFlowError::InsufficientLiquidity => 65u32,
            StreamFlowError::SwapFailed => 66u32,
            StreamFlowError::InvalidSwapConfiguration => 67u32,
            StreamFlowError::AutomatedPaymentFailed => 68u32,
            StreamFlowError::PaymentScheduleNotFound => 69u32,
            StreamFlowError::InvalidPaymentSchedule => 70u32,
            StreamFlowError::RecurringPaymentLimitExceeded => 71u32,
            StreamFlowError::PaymentAuthorizationExpired => 72u32,
            StreamFlowError::InvalidPaymentMethod => 73u32,
            StreamFlowError::CrossChainBridgeNotAvailable => 74u32,
            StreamFlowError::BridgeTransactionFailed => 75u32,
            StreamFlowError::InvalidBridgeConfiguration => 76u32,
            StreamFlowError::DestinationChainNotSupported => 77u32,
            StreamFlowError::BridgeFeeCalculationFailed => 78u32,
            StreamFlowError::GovernanceTokenNotFound => 79u32,
            StreamFlowError::InvalidGovernanceConfiguration => 80u32,
            StreamFlowError::VotingPowerCalculationFailed => 81u32,
            StreamFlowError::QuorumNotReached => 82u32,
            StreamFlowError::ProposalCreationFailed => 83u32,
            StreamFlowError::InvalidTimelockConfiguration => 84u32,
            StreamFlowError::TimelockPeriodNotElapsed => 85u32,
            StreamFlowError::EmergencyPauseActivated => 86u32,
            StreamFlowError::SystemMaintenanceMode => 87u32,
            StreamFlowError::RateLimitExceeded => 88u32,
            StreamFlowError::InvalidApiKey => 89u32,
            StreamFlowError::ApiQuotaExceeded => 90u32,
            StreamFlowError::WebhookDeliveryFailed => 91u32,
            StreamFlowError::InvalidWebhookConfiguration => 92u32,
            StreamFlowError::NotificationServiceUnavailable => 93u32,
            StreamFlowError::InvalidNotificationConfiguration => 94u32,
            StreamFlowError::AnalyticsDataNotAvailable => 95u32,
            StreamFlowError::ReportGenerationFailed => 96u32,
            StreamFlowError::ExportFormatNotSupported => 97u32,
            StreamFlowError::DataIntegrityCheckFailed => 98u32,
            StreamFlowError::BackupCreationFailed => 99u32,
            StreamFlowError::RestoreOperationFailed => 100u32,
            StreamFlowError::VersionCompatibilityCheckFailed => 101u32,
            StreamFlowError::MigrationFailed => 102u32,
            StreamFlowError::ConfigurationValidationFailed => 103u32,
            StreamFlowError::SystemResourceLimitExceeded => 104u32,
            StreamFlowError::NetworkConnectivityIssue => 105u32,
            StreamFlowError::ExternalServiceUnavailable => 106u32,
            StreamFlowError::TimeoutOccurred => 107u32,
            StreamFlowError::RetryLimitExceeded => 108u32,
            StreamFlowError::CircuitBreakerActivated => 109u32,
            StreamFlowError::HealthCheckFailed => 110u32,
            StreamFlowError::ServiceDegraded => 111u32,
            StreamFlowError::CapacityLimitReached => 112u32,
            StreamFlowError::ResourceAllocationFailed => 113u32,
            StreamFlowError::PermissionDenied => 114u32,
            StreamFlowError::AccessTokenExpired => 115u32,
            StreamFlowError::InvalidSignature => 116u32,
            StreamFlowError::NonceAlreadyUsed => 117u32,
            StreamFlowError::RequestExpired => 118u32,
            StreamFlowError::InvalidRequestFormat => 119u32,
            StreamFlowError::UnsupportedOperation => 120u32,
            StreamFlowError::FeatureNotEnabled => 121u32,
            StreamFlowError::DeprecatedFunctionality => 122u32,
            StreamFlowError::UnknownError => 123u32,
            StreamFlowError::StreamAlreadyPaused => 124u32,
            StreamFlowError::InvalidStatusTransition => 125u32,
        }
    }

    /// Failures caused by a condition outside the ledger that may pass.
    pub open spec fn recoverable(self) -> bool {
        ||| self is NetworkConnectivityIssue
        ||| self is ExternalServiceUnavailable
        ||| self is TimeoutOccurred
        ||| self is ServiceDegraded
        ||| self is RateLimitExceeded
        ||| self is SystemMaintenanceMode
    }

    /// Failures after which the same request is worth sending again.
    pub open spec fn retryable(self) -> bool {
        ||| self is NetworkConnectivityIssue
        ||| self is ExternalServiceUnavailable
        ||| self is TimeoutOccurred
        ||| self is AutomatedPaymentFailed
        ||| self is WebhookDeliveryFailed
    }

    /// Failures caused by what the caller asked for.
    pub open spec fn user_error(self) -> bool {
        ||| self is InvalidStreamConfig
        ||| self is InvalidRecipient
        ||| self is InvalidDuration
        ||| self is InvalidAmount
        ||| self is InvalidStartTime
        ||| self is InvalidEndTime
        ||| self is InsufficientFunds
        ||| self is UnauthorizedAccess
        ||| self is InvalidTokenMint
        ||| self is InvalidVestingSchedule
        ||| self is InvalidCliffPeriod
    }

    /// Failures that point at a fault inside the system itself.
    pub open spec fn system_error(self) -> bool {
        ||| self is ArithmeticOverflow
        ||| self is ArithmeticUnderflow
        ||| self is DivisionByZero
        ||| self is SystemResourceLimitExceeded
        ||| self is DataIntegrityCheckFailed
        ||| self is ConfigurationValidationFailed
    }

    /// The number of this failure: its position in the list of variants.
    pub fn error_code(&self) -> (code: u32)
        ensures
            code == self.code(),
    {
        match self {
            StreamFlowError::InvalidStreamConfig => 0,
            StreamFlowError::StreamNotFound => 1,
            StreamFlowError::UnauthorizedAccess => 2,
            StreamFlowError::StreamAlreadyInitialized => 3,
            StreamFlowError::StreamNotActive => 4,
            StreamFlowError::StreamAlreadyCancelled => 5,
            StreamFlowError::StreamAlreadyCompleted => 6,
            StreamFlowError::InsufficientFunds => 7,
            StreamFlowError::InvalidRecipient => 8,
            StreamFlowError::InvalidDuration => 9,
            StreamFlowError::InvalidAmount => 10,
            StreamFlowError::InvalidStartTime => 11,
            StreamFlowError::InvalidEndTime => 12,
            StreamFlowError::CliffPeriodNotReached => 13,
            StreamFlowError::NoFundsAvailable => 14,
            StreamFlowError::InsufficientWithdrawableAmount => 15,
            StreamFlowError::CannotCancelCompletedStream => 16,
            StreamFlowError::OnlyCreatorCanCancel => 17,
            StreamFlowError::OnlyRecipientCanWithdraw => 18,
            StreamFlowError::StreamPaused => 19,
            StreamFlowError::StreamNotPaused => 20,
            StreamFlowError::CannotPauseCompletedStream => 21,
            StreamFlowError::CannotResumeCancelledStream => 22,
            StreamFlowError::InvalidTokenMint => 23,
            StreamFlowError::TokenAccountNotFound => 24,
            StreamFlowError::InvalidTokenAccountOwner => 25,
            StreamFlowError::ArithmeticOverflow => 26,
            StreamFlowError::ArithmeticUnderflow => 27,
            StreamFlowError::DivisionByZero => 28,
            StreamFlowError::InvalidVestingSchedule => 29,
            StreamFlowError::InvalidCliffPeriod => 30,
            StreamFlowError::StreamRateCalculationFailed => 31,
            StreamFlowError::InvalidStreamType => 32,
            StreamFlowError::StreamModificationNotAllowed => 33,
            StreamFlowError::InvalidFeeConfiguration => 34,
            StreamFlowError::FeeCalculationFailed => 35,
            StreamFlowError::TreasuryAccountNotFound => 36,
            StreamFlowError::InvalidTreasuryConfiguration => 37,
            StreamFlowError::MultisigThresholdNotMet => 38,
            StreamFlowError::InvalidMultisigConfiguration => 39,
            StreamFlowError::ProposalNotFound => 40,
            StreamFlowError::ProposalAlreadyExecuted => 41,
            StreamFlowError::ProposalVotingExpired => 42,
            StreamFlowError::InsufficientVotingPower => 43,
            StreamFlowError::AlreadyVoted => 44,
            StreamFlowError::InvalidProposalType => 45,
            StreamFlowError::ProposalExecutionFailed => 46,
            StreamFlowError::StreamTemplateNotFound => 47,
            StreamFlowError::InvalidTemplateConfiguration => 48,
            StreamFlowError::TemplateAlreadyExists => 49,
            StreamFlowError::CannotDeleteActiveTemplate => 50,
            StreamFlowError::BatchOperationLimitExceeded => 51,
            StreamFlowError::InvalidBatchOperation => 52,
            StreamFlowError::BatchOperationPartialFailure => 53,
            StreamFlowError::StreamMetadataTooLarge => 54,
            StreamFlowError::InvalidMetadataFormat => 55,
            StreamFlowError::EscrowAccountNotFound => 56,
            StreamFlowError::InvalidEscrowConfiguration => 57,
            StreamFlowError::EscrowReleaseConditionsNotMet => 58,
            StreamFlowError::OraclePriceFeedNotFound => 59,
            StreamFlowError::InvalidOracleConfiguration => 60,
            StreamFlowError::OraclePriceDataStale => 61,
            StreamFlowError::PriceDeviationTooHigh => 62,
            StreamFlowError::SlippageToleranceExceeded => 63,
            StreamFlowError::LiquidityPoolNotFound => 64,
            StreamFlowError::InsufficientLiquidity => 65,
            StreamFlowError::SwapFailed => 66,
            StreamFlowError::InvalidSwapConfiguration => 67,
            StreamFlowError::AutomatedPaymentFailed => 68,
            StreamFlowError::PaymentScheduleNotFound => 69,
            StreamFlowError::InvalidPaymentSchedule => 70,
            StreamFlowError::RecurringPaymentLimitExceeded => 71,
            StreamFlowError::PaymentAuthorizationExpired => 72,
            StreamFlowError::InvalidPaymentMethod => 73,
            StreamFlowError::CrossChainBridgeNotAvailable => 74,
            StreamFlowError::BridgeTransactionFailed => 75,
            StreamFlowError::InvalidBridgeConfiguration => 76,
            StreamFlowError::DestinationChainNotSupported => 77,
            StreamFlowError::BridgeFeeCalculationFailed => 78,
            StreamFlowError::GovernanceTokenNotFound => 79,
            StreamFlowError::InvalidGovernanceConfiguration => 80,
            StreamFlowError::VotingPowerCalculationFailed => 81,
            StreamFlowError::QuorumNotReached => 82,
            StreamFlowError::ProposalCreationFailed => 83,
            StreamFlowError::InvalidTimelockConfiguration => 84,
            StreamFlowError::TimelockPeriodNotElapsed => 85,
            StreamFlowError::EmergencyPauseActivated => 86,
            StreamFlowError::SystemMaintenanceMode => 87,
            StreamFlowError::RateLimitExceeded => 88,
            StreamFlowError::InvalidApiKey => 89,
            StreamFlowError::ApiQuotaExceeded => 90,
            StreamFlowError::WebhookDeliveryFailed => 91,
            StreamFlowError::InvalidWebhookConfiguration => 92,
            StreamFlowError::NotificationServiceUnavailable => 93,
            StreamFlowError::InvalidNotificationConfiguration => 94,
            StreamFlowError::AnalyticsDataNotAvailable => 95,
            StreamFlowError::ReportGenerationFailed => 96,
            StreamFlowError::ExportFormatNotSupported => 97,
            StreamFlowError::DataIntegrityCheckFailed => 98,
            StreamFlowError::BackupCreationFailed => 99,
            StreamFlowError::RestoreOperationFailed => 100,
            StreamFlowError::VersionCompatibilityCheckFailed => 101,
            StreamFlowError::MigrationFailed => 102,
            StreamFlowError::ConfigurationValidationFailed => 103,
            StreamFlowError::SystemResourceLimitExceeded => 104,
            StreamFlowError::NetworkConnectivityIssue => 105,
            StreamFlowError::ExternalServiceUnavailable => 106,
            StreamFlowError::TimeoutOccurred => 107,
            StreamFlowError::RetryLimitExceeded => 108,
            StreamFlowError::CircuitBreakerActivated => 109,
            StreamFlowError::HealthCheckFailed => 110,
            StreamFlowError::ServiceDegraded => 111,
            StreamFlowError::CapacityLimitReached => 112,
            StreamFlowError::ResourceAllocationFailed => 113,
            StreamFlowError::PermissionDenied => 114,
            StreamFlowError::AccessTokenExpired => 115,
            StreamFlowError::InvalidSignature => 116,
            StreamFlowError::NonceAlreadyUsed => 117,
            StreamFlowError::RequestExpired => 118,
            StreamFlowError::InvalidRequestFormat => 119,
            StreamFlowError::UnsupportedOperation => 120,
            StreamFlowError::FeatureNotEnabled => 121,
            StreamFlowError::DeprecatedFunctionality => 122,
            StreamFlowError::UnknownError => 123,
            StreamFlowError::StreamAlreadyPaused => 124,
            StreamFlowError::InvalidStatusTransition => 125,
        }
    }

    /// Whether the failure may pass without any change to the request.
    pub fn is_recoverable(&self) -> (yes: bool)
        ensures
            yes == self.recoverable(),
    {
        matches!(
            self,
            StreamFlowError::NetworkConnectivityIssue
                | StreamFlowError::ExternalServiceUnavailable
                | StreamFlowError::TimeoutOccurred
                | StreamFlowError::ServiceDegraded
                | StreamFlowError::RateLimitExceeded
                | StreamFlowError::SystemMaintenanceMode
        )
    }

    /// Whether the request should be sent again.
    pub fn requires_retry(&self) -> (yes: bool)
        ensures
            yes == self.retryable(),
    {
        matches!(
            self,
            StreamFlowError::NetworkConnectivityIssue
                | StreamFlowError::ExternalServiceUnavailable
                | StreamFlowError::TimeoutOccurred
                | StreamFlowError::AutomatedPaymentFailed
                | StreamFlowError::WebhookDeliveryFailed
        )
    }

    /// Whether the caller's own input caused the failure.
    pub fn is_user_error(&self) -> (yes: bool)
        ensures
            yes == self.user_error(),
    {
        matches!(
            self,
            StreamFlowError::InvalidStreamConfig
                | StreamFlowError::InvalidRecipient
                | StreamFlowError::InvalidDuration
                | StreamFlowError::InvalidAmount
                | StreamFlowError::InvalidStartTime
                | StreamFlowError::InvalidEndTime
                | StreamFlowError::InsufficientFunds
                | StreamFlowError::UnauthorizedAccess
                | StreamFlowError::InvalidTokenMint
                | StreamFlowError::InvalidVestingSchedule
                | StreamFlowError::InvalidCliffPeriod
        )
    }

    /// Whether the failure is a fault of the system rather than of a request.
    pub fn is_system_error(&self) -> (yes: bool)
        ensures
            yes == self.system_error(),
    {
        matches!(
            self,
            StreamFlowError::ArithmeticOverflow
                | StreamFlowError::ArithmeticUnderflow
                | StreamFlowError::DivisionByZero
                | StreamFlowError::SystemResourceLimitExceeded
                | StreamFlowError::DataIntegrityCheckFailed
                | StreamFlowError::ConfigurationValidationFailed
        )
    }
}

} // verus!
