//! The decisions of the processing loop: what one received message does to
//! the sensor state and what the loop does next.
use vstd::prelude::*;

use crate::decode::{parse_message, payload_reading, payload_view, DecodeError, Reading};
use crate::state::{snapshot_of, Snapshot, StateStore};

verus! {

/// A reading that was applied, with the state of every sensor after it.
#[derive(Clone, Copy, Debug, PartialEq, Eq, Structural)]
pub struct Processed {
    pub reading: Reading,
    pub snapshot: Snapshot,
}

/// What the consumer handed over.
pub enum Received<'a> {
    /// The transport failed to deliver a message.
    TransportError,
    /// A message, with its payload if it has one.
    Message(Option<&'a [u8]>),
}

/// What the loop does with one receive.
#[derive(Clone, Copy, Debug, PartialEq, Eq, Structural)]
pub enum Action {
    /// Warn of the transport error and receive again.
    Retry,
    /// Log why the message gave no reading, drop it unacknowledged, and
    /// receive again.
    Drop(DecodeError),
    /// Acknowledge the message, derive both statistics from the snapshot and
    /// publish them.
    CommitAndPublish(Processed),
}

/// Decodes a payload and, where it gives a reading, writes the reading into
/// the state and returns it with the state of every sensor after it. A
/// payload that gives no reading leaves the state as it was.
pub fn handle_message(payload: Option<&[u8]>, state: &mut StateStore) -> (r: Result<
    Processed,
    DecodeError,
>)
    ensures
        match r {
            Ok(p) => {
                &&& payload_reading(payload_view(payload)) == Ok::<Reading, DecodeError>(p.reading)
                &&& final(state)@ == old(state)@.insert(p.reading.variable, p.reading.value_bits)
                &&& p.snapshot == snapshot_of(final(state)@)
            },
            Err(e) => {
                &&& payload_reading(payload_view(payload)) == Err::<Reading, DecodeError>(e)
                &&& final(state)@ == old(state)@
            },
        },
{
    match parse_message(payload) {
        Ok(reading) => {
            state.update(reading.variable, reading.value_bits);
            let snapshot = state.snapshot();
            Ok(Processed { reading, snapshot })
        },
        Err(e) => Err(e),
    }
}

/// Decides what one receive leads to, applying a decoded reading to the
/// state on the way.
pub fn step(received: Received, state: &mut StateStore) -> (r: Action)
    ensures
        match received {
            Received::TransportError => r == Action::Retry && final(state)@ == old(state)@,
            Received::Message(payload) => match payload_reading(payload_view(payload)) {
                Ok(reading) => r matches Action::CommitAndPublish(p) && p.reading == reading
                    && final(state)@ == old(state)@.insert(reading.variable, reading.value_bits)
                    && p.snapshot == snapshot_of(final(state)@),
                Err(e) => r == Action::Drop(e) && final(state)@ == old(state)@,
            },
        },
{
    match received {
        Received::TransportError => Action::Retry,
        Received::Message(payload) => match handle_message(payload, state) {
            Ok(p) => Action::CommitAndPublish(p),
            Err(e) => Action::Drop(e),
        },
    }
}

} // verus!
