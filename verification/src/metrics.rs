//! Event counters of a block device.

use vstd::prelude::*;

verus! {

/// Counters that the device keeps. A counter that overflows starts again at
/// zero.
#[derive(Clone, Copy, Debug, PartialEq, Eq, Structural)]
pub struct BlockDeviceMetrics {
    /// Activations that failed.
    pub activate_fails: u64,
    /// Accesses to the configuration space that failed.
    pub cfg_fails: u64,
    /// Passes over the queue that used no descriptor chain.
    pub no_avail_buffer: u64,
    /// Events that could not be read or raised.
    pub event_fails: u64,
    /// Requests that could not be read.
    pub execute_fails: u64,
    /// Queue events that arrived.
    pub queue_event_count: u64,
    /// Rate limiter events that arrived.
    pub rate_limiter_event_count: u64,
    /// Replacements of the backing file.
    pub update_count: u64,
    /// Events and requests that the rate limiter held back.
    pub rate_limiter_throttled_events: u64,
    /// Events that a full engine held back.
    pub io_engine_throttled_events: u64,
    /// Requests that were still waiting when one was taken, added up.
    pub remaining_reqs_count: u64,
}

/// A counter after `amount` was added to it.
pub open spec fn counted(counter: u64, amount: int) -> u64 {
    ((counter + amount) % 0x1_0000_0000_0000_0000) as u64
}

/// Adds `amount` to `counter`.
pub(crate) fn count(counter: &mut u64, amount: u64)
    ensures
        *final(counter) == counted(*old(counter), amount as int),
{
    *counter = counter.wrapping_add(amount);
}

impl BlockDeviceMetrics {
    /// Counters that have counted nothing.
    pub fn new() -> (metrics: Self)
        ensures
            metrics.activate_fails == 0,
            metrics.cfg_fails == 0,
            metrics.no_avail_buffer == 0,
            metrics.event_fails == 0,
            metrics.execute_fails == 0,
            metrics.queue_event_count == 0,
            metrics.rate_limiter_event_count == 0,
            metrics.update_count == 0,
            metrics.rate_limiter_throttled_events == 0,
            metrics.io_engine_throttled_events == 0,
            metrics.remaining_reqs_count == 0,
    {
        BlockDeviceMetrics {
            activate_fails: 0,
            cfg_fails: 0,
            no_avail_buffer: 0,
            event_fails: 0,
            execute_fails: 0,
            queue_event_count: 0,
            rate_limiter_event_count: 0,
            update_count: 0,
            rate_limiter_throttled_events: 0,
            io_engine_throttled_events: 0,
            remaining_reqs_count: 0,
        }
    }
}

/// A counter goes up by what is added to it, and starts again at zero once it
/// would pass its largest value.
pub proof fn law_counters_wrap_around(counter: u64, amount: u64)
    ensures
        counter + amount <= u64::MAX ==> counted(counter, amount as int) == counter + amount,
        counter + amount > u64::MAX ==> counted(counter, amount as int) == counter + amount
            - u64::MAX - 1,
{
}

} // verus!
