//! The stop protocol between the publisher and the reading task.
//!
//! The publisher raises the stop flag when the consumer has dropped its end
//! of the snapshot channel; the reading task looks at the flag after every
//! event and finishes, without error, once it is raised.

use vstd::prelude::*;

verus! {

/// What the reading task does after handling one event.
#[derive(Clone, Copy, Debug, PartialEq, Eq, Structural)]
pub enum ReaderNext {
    /// Read the next record.
    KeepReading,
    /// Stop reading: the consumer is gone. This is not a failure.
    Finish,
}

/// The reading task's decision after one event, given the stop flag.
pub fn reader_next(stop_requested: bool) -> (r: ReaderNext)
    ensures
        r == (if stop_requested {
            ReaderNext::Finish
        } else {
            ReaderNext::KeepReading
        }),
{
    if stop_requested {
        ReaderNext::Finish
    } else {
        ReaderNext::KeepReading
    }
}

/// The stop flag after one publisher tick: raised when the send was not
/// delivered, and never lowered once raised.
pub fn stop_after_tick(stop: bool, delivered: bool) -> (r: bool)
    ensures
        r == (stop || !delivered),
        stop ==> r,
{
    stop || !delivered
}

} // verus!
