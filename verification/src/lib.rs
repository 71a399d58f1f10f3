//! Accounting core of a token-streaming ledger: how much of a deposit has
//! unlocked at a given time, which lifecycle steps are legal, and how the
//! funds in custody are split when a stream is cancelled.
//!
//! Nothing here reads a clock, moves value or checks a signature. Every
//! operation is given the record, the time and the party on whose behalf it
//! acts, and answers with the new record and the amounts to move.

pub mod error;
pub mod identity;
pub mod instructions;
pub mod state;

pub use crate::error::{StreamFlowError, StreamFlowResult};
pub use crate::identity::Identity;
pub use crate::instructions::cancel_stream::{cancel_stream, StreamCancelledEvent};
pub use crate::instructions::create_stream::{create_stream, CreateStream};
pub use crate::instructions::lifecycle::{pause_stream, resume_stream, transfer_stream};
pub use crate::instructions::topup_stream::topup_stream;
pub use crate::instructions::withdraw::{withdraw, WithdrawEvent};
pub use crate::state::stream::{Stream, StreamType};
pub use crate::state::{
    PaymentFrequency,
    StateError,
    StateInitialization,
    StateValidation,
    StreamStatus,
    TreasuryRole,
    VestingType,
};
