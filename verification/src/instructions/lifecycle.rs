//! Pausing, resuming and handing a stream to another recipient.

use vstd::prelude::*;
use crate::error::StreamFlowError;
use crate::identity::Identity;
use crate::state::stream::Stream;
use crate::state::utils::is_valid_status_transition;
use crate::state::StreamStatus;

verus! {

/// Why `authority` cannot pause the stream, if it cannot: only the sender
/// pauses, and only a stream that is streaming.
pub open spec fn pause_refusal(stream: Stream, authority: Identity) -> Option<StreamFlowError> {
    if authority != stream.sender {
        Some(StreamFlowError::UnauthorizedAccess)
    } else {
        match stream.status {
            StreamStatus::Streaming => None,
            StreamStatus::Paused => Some(StreamFlowError::StreamAlreadyPaused),
            StreamStatus::Completed => Some(StreamFlowError::CannotPauseCompletedStream),
            _ => Some(StreamFlowError::InvalidStatusTransition),
        }
    }
}

/// Why `authority` cannot resume the stream, if it cannot: only the sender
/// resumes, and only a stream that is paused.
pub open spec fn resume_refusal(stream: Stream, authority: Identity) -> Option<StreamFlowError> {
    if authority != stream.sender {
        Some(StreamFlowError::UnauthorizedAccess)
    } else {
        match stream.status {
            StreamStatus::Paused => None,
            StreamStatus::Cancelled => Some(StreamFlowError::CannotResumeCancelledStream),
            _ => Some(StreamFlowError::StreamNotPaused),
        }
    }
}

/// Why `authority` cannot name another recipient, if it cannot: only a
/// party that the stream lets do so, and not once the stream is cancelled.
pub open spec fn transfer_refusal(stream: Stream, authority: Identity) -> Option<StreamFlowError> {
    if !stream.may_transfer(authority) {
        Some(StreamFlowError::UnauthorizedAccess)
    } else if stream.status is Cancelled {
        Some(StreamFlowError::StreamAlreadyCancelled)
    } else {
        None
    }
}

/// Pauses `stream` on behalf of `authority`.
///
/// Anyone but the sender fails with `UnauthorizedAccess`. A paused stream
/// fails with `StreamAlreadyPaused`, a completed one with
/// `CannotPauseCompletedStream`, and one that is scheduled or cancelled with
/// `InvalidStatusTransition`. A failed call changes nothing.
pub fn pause_stream(stream: &mut Stream, authority: Identity) -> (outcome: Result<
    (),
    StreamFlowError,
>)
    ensures
        match outcome {
            Ok(_) => {
                &&& pause_refusal(*old(stream), authority) is None
                &&& *final(stream) == (Stream { status: StreamStatus::Paused, ..*old(stream) })
            },
            Err(e) => {
                &&& pause_refusal(*old(stream), authority) == Some(e)
                &&& *final(stream) == *old(stream)
            },
        },
        old(stream).evolves_to(*final(stream)),
        old(stream).wf() ==> final(stream).wf(),
{
    if authority != stream.sender {
        return Err(StreamFlowError::UnauthorizedAccess);
    }
    match stream.status {
        StreamStatus::Paused => Err(StreamFlowError::StreamAlreadyPaused),
        StreamStatus::Completed => Err(StreamFlowError::CannotPauseCompletedStream),
        current => {
            if is_valid_status_transition(current, StreamStatus::Paused) {
                stream.status = StreamStatus::Paused;
                Ok(())
            } else {
                Err(StreamFlowError::InvalidStatusTransition)
            }
        },
    }
}

/// Resumes `stream` on behalf of `authority`.
///
/// Anyone but the sender fails with `UnauthorizedAccess`. A cancelled
/// stream fails with `CannotResumeCancelledStream`, and any other that is
/// not paused with `StreamNotPaused`. A failed call changes nothing.
pub fn resume_stream(stream: &mut Stream, authority: Identity) -> (outcome: Result<
    (),
    StreamFlowError,
>)
    ensures
        match outcome {
            Ok(_) => {
                &&& resume_refusal(*old(stream), authority) is None
                &&& *final(stream) == (Stream { status: StreamStatus::Streaming, ..*old(stream) })
            },
            Err(e) => {
                &&& resume_refusal(*old(stream), authority) == Some(e)
                &&& *final(stream) == *old(stream)
            },
        },
        old(stream).evolves_to(*final(stream)),
        old(stream).wf() ==> final(stream).wf(),
{
    if authority != stream.sender {
        return Err(StreamFlowError::UnauthorizedAccess);
    }
    match stream.status {
        StreamStatus::Paused => {
            stream.status = StreamStatus::Streaming;
            Ok(())
        },
        StreamStatus::Cancelled => Err(StreamFlowError::CannotResumeCancelledStream),
        _ => Err(StreamFlowError::StreamNotPaused),
    }
}

/// Makes `new_recipient` the recipient of `stream` on behalf of
/// `authority`.
///
/// An `authority` that the stream does not let do so fails with
/// `UnauthorizedAccess`, and a cancelled stream with
/// `StreamAlreadyCancelled`. A failed call changes nothing.
pub fn transfer_stream(stream: &mut Stream, authority: Identity, new_recipient: Identity) -> (outcome:
    Result<(), StreamFlowError>)
    ensures
        match outcome {
            Ok(_) => {
                &&& transfer_refusal(*old(stream), authority) is None
                &&& *final(stream) == (Stream { recipient: new_recipient, ..*old(stream) })
            },
            Err(e) => {
                &&& transfer_refusal(*old(stream), authority) == Some(e)
                &&& *final(stream) == *old(stream)
            },
        },
        old(stream).evolves_to(*final(stream)),
        old(stream).wf() ==> final(stream).wf(),
{
    if !stream.can_transfer(&authority) {
        return Err(StreamFlowError::UnauthorizedAccess);
    }
    if matches!(stream.status, StreamStatus::Cancelled) {
        return Err(StreamFlowError::StreamAlreadyCancelled);
    }
    stream.recipient = new_recipient;
    Ok(())
}

} // verus!
