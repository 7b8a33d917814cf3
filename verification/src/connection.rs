//! The decisions of a gateway connection's poll loop: what a read leads
//! to, when a heartbeat is due, and what a write outcome leads to. The loop
//! that reads and writes the socket performs them.

use vstd::prelude::*;

verus! {

/// What one read of the socket gave.
#[derive(Debug, Clone, Copy, PartialEq, Eq, Structural)]
pub enum ReadOutcome {
    /// A text message.
    Text,
    /// A binary message; clients may send JSON frames as binary.
    Binary,
    /// A protocol ping, pong or raw frame, which the socket answers itself.
    Control,
    /// The peer closed the connection.
    Close,
    /// Nothing arrived before the poll interval ran out.
    WouldBlock,
    /// The read failed.
    Failed,
}

/// What the loop does after a read.
#[derive(Debug, Clone, Copy, PartialEq, Eq, Structural)]
pub enum ReadAction {
    /// Decode the payload and process the frame.
    Process,
    /// Nothing to process; go on polling.
    Idle,
    /// Leave the loop and close the connection.
    Stop,
}

/// What one write of a queued frame gave.
#[derive(Debug, Clone, Copy, PartialEq, Eq, Structural)]
pub enum WriteOutcome {
    Written,
    /// The peer's window is full; the frame was not sent.
    WouldBlock,
    Failed,
}

/// What the loop does after a write.
#[derive(Debug, Clone, Copy, PartialEq, Eq, Structural)]
pub enum WriteAction {
    /// Write the next queued frame.
    Next,
    /// Put the frame back at the front of the queue and wait a poll interval.
    Requeue,
    /// Leave the loop and close the connection.
    Stop,
}

/// Text and binary messages carry frames; control messages and timeouts
/// leave nothing to do; a close or a failed read ends the connection.
pub fn read_action(outcome: ReadOutcome) -> (res: ReadAction)
    ensures
        res == match outcome {
            ReadOutcome::Text | ReadOutcome::Binary => ReadAction::Process,
            ReadOutcome::Control | ReadOutcome::WouldBlock => ReadAction::Idle,
            ReadOutcome::Close | ReadOutcome::Failed => ReadAction::Stop,
        },
{
    match outcome {
        ReadOutcome::Text | ReadOutcome::Binary => ReadAction::Process,
        ReadOutcome::Control | ReadOutcome::WouldBlock => ReadAction::Idle,
        ReadOutcome::Close | ReadOutcome::Failed => ReadAction::Stop,
    }
}

/// A write that would block keeps its frame for the next poll; a failed
/// write ends the connection.
pub fn write_action(outcome: WriteOutcome) -> (res: WriteAction)
    ensures
        res == match outcome {
            WriteOutcome::Written => WriteAction::Next,
            WriteOutcome::WouldBlock => WriteAction::Requeue,
            WriteOutcome::Failed => WriteAction::Stop,
        },
{
    match outcome {
        WriteOutcome::Written => WriteAction::Next,
        WriteOutcome::WouldBlock => WriteAction::Requeue,
        WriteOutcome::Failed => WriteAction::Stop,
    }
}

/// The heartbeat interval a connection uses: the configured one, and none
/// when it is zero or not configured.
pub fn heartbeat_interval(configured_ms: Option<u64>) -> (res: Option<u64>)
    ensures
        res == match configured_ms {
            Some(ms) => if ms > 0 { Some(ms) } else { None },
            None => None::<u64>,
        },
{
    match configured_ms {
        Some(ms) => if ms > 0 { Some(ms) } else { None },
        None => None,
    }
}

/// Whether a heartbeat ping is due `elapsed_ms` after the last one.
pub fn heartbeat_due(interval_ms: Option<u64>, elapsed_ms: u64) -> (res: bool)
    ensures
        res == match interval_ms {
            Some(ms) => elapsed_ms >= ms,
            None => false,
        },
{
    match interval_ms {
        Some(ms) => elapsed_ms >= ms,
        None => false,
    }
}

} // verus!
