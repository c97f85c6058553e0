//! Per-stage control decisions of the streaming pipeline.
//!
//! Each stage runs an indefinite loop owned by the unverified shell:
//! worker threads, inter-stage queues, sockets and cooperative-stop flags
//! live there. What each loop *decides* at its head is exact and verified
//! here: a requested stop always wins; on the ingest socket, a missing
//! datagram is a transient condition to retry while a malformed one is a
//! fatal schema violation; on an inter-stage queue, a vanished peer is
//! fatal to the stage. Transient conditions are absorbed locally and never
//! surface; structural conditions are never retried.

use vstd::prelude::*;

use crate::errors::{IngestError, StageError};
use crate::ingress::{decode_datagram, decoded, StokesDatagram};

verus! {

/// What the ingest loop does next.
#[derive(Clone, Copy, Debug, PartialEq, Eq, Structural)]
pub enum IngestDecision {
    /// Stop was requested: leave the loop cleanly.
    Halt,
    /// Hand the decoded datagram downstream.
    Forward { datagram: StokesDatagram },
    /// No datagram was ready; receive again. Not an error.
    Retry,
    /// The wire schema was violated; stop and surface the error.
    Fatal { error: IngestError },
}

/// Decides one ingest iteration from the stop flag and the outcome of the
/// socket receive (`None` when no datagram was ready). Exactly the
/// 24-byte datagrams flow downstream; absence retries; any other size is
/// fatal, never truncated or padded.
pub fn ingest_decide(stop_requested: bool, packet: &Option<Vec<u8>>) -> (d: IngestDecision)
    ensures
        stop_requested ==> d == IngestDecision::Halt,
        !stop_requested && packet is None ==> d == IngestDecision::Retry,
        !stop_requested && packet is Some && packet->0@.len() == 24 ==> d == (
        IngestDecision::Forward { datagram: decoded(packet->0@) }),
        !stop_requested && packet is Some && packet->0@.len() != 24 ==> d == (
        IngestDecision::Fatal {
            error: IngestError::SchemaViolation { size: packet->0@.len() as usize },
        }),
{
    if stop_requested {
        return IngestDecision::Halt;
    }
    match packet {
        None => IngestDecision::Retry,
        Some(buf) => match decode_datagram(buf) {
            Ok(datagram) => IngestDecision::Forward { datagram },
            Err(error) => IngestDecision::Fatal { error },
        },
    }
}

/// What a steady-state worker loop does next.
#[derive(Clone, Copy, Debug, PartialEq, Eq, Structural)]
pub enum StageAction {
    /// Stop was requested: leave the loop cleanly.
    Halt,
    /// The upstream queue can never yield again; stop and surface it.
    Fail { error: StageError },
    /// An item arrived: process it and pass the result downstream.
    Process,
}

/// Decides one iteration of a queue-fed worker loop (the projection,
/// filter, spectral and egress stages all share this head) from the stop
/// flag and whether the blocking receive yielded an item.
/// `item_available == false` means the producing end of the queue is gone,
/// which is fatal to this stage — a stage never drops or reorders an item
/// that did arrive.
pub fn stage_decide(stop_requested: bool, item_available: bool) -> (a: StageAction)
    ensures
        stop_requested ==> a == StageAction::Halt,
        !stop_requested && !item_available ==> a == (StageAction::Fail {
            error: StageError::ChannelDisconnected,
        }),
        !stop_requested && item_available ==> a == StageAction::Process,
{
    if stop_requested {
        StageAction::Halt
    } else if !item_available {
        StageAction::Fail { error: StageError::ChannelDisconnected }
    } else {
        StageAction::Process
    }
}

} // verus!
