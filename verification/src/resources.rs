//! What one queue of a block device is served with.

use vstd::prelude::*;

use crate::disk::DiskProperties;

verus! {

/// The data path of one queue. It belongs either to the device or to the worker
/// that serves the queue.
///
/// `T` stands for what the host keeps for the queue: the queue in guest memory,
/// its event, the engine with the open backing file and the rate limiter. The
/// device hands it on and never looks into it.
#[derive(Debug)]
pub struct BlockResources<T> {
    /// What the host keeps for the queue.
    pub io: T,
    /// Number of the queue.
    pub queue_index: u16,
    /// The backing file.
    pub disk: DiskProperties,
    /// Whether the engine was full, so that the queue waits for completions.
    pub is_io_engine_throttled: bool,
}

impl<T> BlockResources<T> {
    /// Forgets that the engine was full. The host resets the queue itself.
    pub fn reset_for_reactivation(&mut self)
        ensures
            *final(self) == old(self).reset(),
    {
        self.is_io_engine_throttled = false;
    }

    /// The resources as a device holds them before it is activated again.
    pub open spec fn reset(self) -> Self {
        BlockResources { is_io_engine_throttled: false, ..self }
    }
}

/// What the transport may still ask of a queue once a worker owns it.
#[derive(Clone, Copy, Debug, PartialEq, Eq, Structural)]
pub struct QueueConfig {
    /// Largest size of the queue.
    pub max_size: u16,
    /// Whether the driver made the queue ready.
    pub ready: bool,
}

/// Making resources ready for another activation only forgets that the engine
/// was full.
pub proof fn law_reset_only_forgets_the_full_engine<T>(resources: BlockResources<T>)
    ensures
        !resources.reset().is_io_engine_throttled,
        resources.reset().io == resources.io,
        resources.reset().queue_index == resources.queue_index,
        resources.reset().disk == resources.disk,
{
}

} // verus!
