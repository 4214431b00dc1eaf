//! Sizes of the dispatch queue, the read buffer and the worker pool.

use crate::outside::available_cpus;
use vstd::prelude::*;

verus! {

/// How many accepted connections may wait for a worker. With the queue full,
/// the acceptor waits for room before it accepts another.
pub const QUEUE_CAPACITY: usize = 1024;

/// The most that is read of a connection: one read into a buffer of this
/// size.
pub const READ_BUFFER_SIZE: usize = 1024;

/// The number of workers for a machine with `available` processors: one for
/// each, and never fewer than one.
pub open spec fn workers_for(available: usize) -> usize {
    if available == 0 {
        1
    } else {
        available
    }
}

/// The number of workers for a machine with `available` processors.
pub fn worker_count(available: usize) -> (count: usize)
    ensures
        count == workers_for(available),
{
    if available == 0 {
        1
    } else {
        available
    }
}

/// The number of workers for this machine. What the machine reports is not
/// known beforehand; whatever it is, there is at least one worker.
pub fn detect_worker_count() -> (count: usize)
    ensures
        count >= 1,
{
    worker_count(available_cpus())
}

} // verus!
