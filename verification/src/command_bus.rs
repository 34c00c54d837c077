//! The command bus: requests addressed to a node by its credentials, fanned
//! out to every session, each of which keeps only what is addressed to it.

use crate::message::Envelope;
use vstd::prelude::*;

verus! {

/// How many requests the command bus buffers for its subscribers.
pub const COMMAND_BUS_CAPACITY: usize = 2048;

/// How many messages a node's event bus buffers for its subscribers.
pub const NODE_CHANNEL_CAPACITY: usize = 1024;

/// How many envelopes may queue on a node's outbound channel.
pub const SERVER_CHANNEL_CAPACITY: usize = 32;

/// A command on its way to the node that the credentials address.
#[derive(Clone, Debug, PartialEq, Eq)]
pub struct ServerRequestByUser {
    pub envelope: Envelope,
    pub id: String,
    pub password: String,
}

/// What a subscriber of a fan-out channel receives.
#[derive(Clone, Debug, PartialEq, Eq)]
pub enum BusEvent<T> {
    /// The next message.
    Message(T),
    /// The subscriber fell behind and this many messages were dropped.
    Lagged(u64),
    /// Every sender is gone.
    Closed,
}

/// How an attempt to queue an envelope on a bounded channel ended.
#[derive(Clone, Copy, Debug, PartialEq, Eq)]
pub enum SendOutcome {
    Sent,
    /// The channel was full: the envelope is dropped.
    Full,
    /// The receiving side is gone.
    Closed,
}

/// Whether a task goes on with its loop.
#[derive(Clone, Copy, Debug, PartialEq, Eq)]
pub enum TaskStep {
    Continue,
    Stop,
}

/// What the egress task does after trying to queue an envelope for the node:
/// a full channel costs the envelope and nothing else, a closed channel ends
/// the task.
pub fn after_forward(outcome: SendOutcome) -> (step: TaskStep)
    ensures
        step == (if outcome is Closed {
            TaskStep::Stop
        } else {
            TaskStep::Continue
        }),
{
    match outcome {
        SendOutcome::Closed => TaskStep::Stop,
        _ => TaskStep::Continue,
    }
}

} // verus!
