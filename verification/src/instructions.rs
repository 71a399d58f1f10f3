//! The operations on a stream. Each one checks everything before it changes
//! anything: an operation that fails leaves the record as it was.

pub mod cancel_stream;
pub mod create_stream;
pub mod lifecycle;
pub mod topup_stream;
pub mod withdraw;
