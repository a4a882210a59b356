//! Per-connection lifecycle and the decisions of the two delivery tasks.
//!
//! Every connection runs a reader task, which drains inbound client frames
//! and watches for close or error, and a writer task, which multiplexes the
//! connection's private queue and the global channel into outbound frames.
//! The tasks themselves suspend on I/O at the application edge; the
//! decisions they take on each event are pure functions and live here, with
//! the state machine they drive: `Registering -> Active -> Closing ->
//! Removed`. Either task entering `Closing` triggers removal; the other
//! task's own exit then finds the record already cleaned up, which is a
//! normal terminal state.

use vstd::prelude::*;

use crate::channel::RecvOutcome;
use crate::message::WebSocketMessage;

verus! {

/// Where a connection stands in its life.
#[derive(Debug, Clone, Copy, PartialEq, Eq, Structural)]
pub enum ConnectionState {
    /// Being inserted into the registry; transient, inside registration.
    Registering,
    /// Both delivery tasks run and the record is in the registry.
    Active,
    /// One task observed close, error or write failure; removal is due.
    Closing,
    /// The record has been removed; reconnection means a new registration.
    Removed,
}

/// What happens to a connection.
#[derive(Debug, Clone, Copy, PartialEq, Eq, Structural)]
pub enum LifecycleEvent {
    /// Registration finished: record inserted, tasks spawned.
    Registered,
    /// A task observed a close frame, a stream error or a write failure.
    FailureObserved,
    /// The record was removed from the registry.
    CleanedUp,
}

/// The connection state machine. States only move forward; removal from a
/// state that is already `Removed` stays put, which is what makes racing
/// cleanups harmless.
pub fn lifecycle_step(state: ConnectionState, event: LifecycleEvent) -> (next: ConnectionState)
    ensures
        next == match (state, event) {
            (ConnectionState::Registering, LifecycleEvent::Registered) => ConnectionState::Active,
            (ConnectionState::Active, LifecycleEvent::FailureObserved) => ConnectionState::Closing,
            (ConnectionState::Closing, LifecycleEvent::CleanedUp) => ConnectionState::Removed,
            (ConnectionState::Removed, LifecycleEvent::CleanedUp) => ConnectionState::Removed,
            (s, _) => s,
        },
{
    match (state, event) {
        (ConnectionState::Registering, LifecycleEvent::Registered) => ConnectionState::Active,
        (ConnectionState::Active, LifecycleEvent::FailureObserved) => ConnectionState::Closing,
        (ConnectionState::Closing, LifecycleEvent::CleanedUp) => ConnectionState::Removed,
        (ConnectionState::Removed, LifecycleEvent::CleanedUp) => ConnectionState::Removed,
        (s, _) => s,
    }
}

/// One inbound frame, as the reader task sees it.
#[derive(Debug, Clone, Copy, PartialEq, Eq, Structural)]
pub enum ReaderEvent {
    /// A text frame from the client: accepted and logged, nothing more — no
    /// inbound command protocol is defined.
    TextFrame,
    /// The client closed the connection.
    CloseFrame,
    /// Reading from the stream failed.
    StreamError,
    /// Any other frame kind.
    OtherFrame,
}

/// What the reader task does next.
#[derive(Debug, Clone, Copy, PartialEq, Eq, Structural)]
pub enum ReaderDirective {
    /// Wait for the next frame.
    KeepReading,
    /// Leave the loop and remove the connection.
    StopAndRemove,
}

/// The reader task's only engineering-relevant job: detect close and error.
/// Everything else is accepted and ignored.
pub fn reader_decision(event: ReaderEvent) -> (d: ReaderDirective)
    ensures
        d == match event {
            ReaderEvent::TextFrame => ReaderDirective::KeepReading,
            ReaderEvent::CloseFrame => ReaderDirective::StopAndRemove,
            ReaderEvent::StreamError => ReaderDirective::StopAndRemove,
            ReaderEvent::OtherFrame => ReaderDirective::KeepReading,
        },
{
    match event {
        ReaderEvent::TextFrame => ReaderDirective::KeepReading,
        ReaderEvent::CloseFrame => ReaderDirective::StopAndRemove,
        ReaderEvent::StreamError => ReaderDirective::StopAndRemove,
        ReaderEvent::OtherFrame => ReaderDirective::KeepReading,
    }
}

/// What the writer task does next.
#[derive(Debug)]
pub enum WriterDirective {
    /// Serialize this message and write it to the transport stream.
    Forward(WebSocketMessage),
    /// Nothing to forward; keep waiting on both sources.
    KeepWaiting,
    /// Leave the loop and remove the connection.
    StopAndRemove,
}

/// The writer task's decision on one receive outcome from either source.
/// A message is forwarded; a lag report is not fatal — the skipped messages
/// are gone, delivery goes on; a closed source ends the task.
pub fn writer_decision(outcome: RecvOutcome) -> (d: WriterDirective)
    ensures
        outcome matches RecvOutcome::Message(m) ==> d == WriterDirective::Forward(m),
        outcome is Empty ==> d == WriterDirective::KeepWaiting,
        outcome is Lagged ==> d == WriterDirective::KeepWaiting,
        outcome is Closed ==> d == WriterDirective::StopAndRemove,
{
    match outcome {
        RecvOutcome::Message(m) => WriterDirective::Forward(m),
        RecvOutcome::Empty => WriterDirective::KeepWaiting,
        RecvOutcome::Lagged(_) => WriterDirective::KeepWaiting,
        RecvOutcome::Closed => WriterDirective::StopAndRemove,
    }
}

/// The writer task's decision after trying to forward one message: a frame
/// that would not serialize is logged and skipped — a single bad message
/// never terminates the connection — while a transport write failure ends
/// the task.
pub fn writer_forward_result(serialize_ok: bool, write_ok: bool) -> (d: WriterDirective)
    ensures
        !serialize_ok ==> d == WriterDirective::KeepWaiting,
        serialize_ok && !write_ok ==> d == WriterDirective::StopAndRemove,
        serialize_ok && write_ok ==> d == WriterDirective::KeepWaiting,
{
    if !serialize_ok {
        WriterDirective::KeepWaiting
    } else if !write_ok {
        WriterDirective::StopAndRemove
    } else {
        WriterDirective::KeepWaiting
    }
}

} // verus!
