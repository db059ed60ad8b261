//! What can go wrong, as plain values.

use vstd::prelude::*;

verus! {

/// An error of the operating system, by its number.
#[derive(Clone, Copy, Debug, PartialEq, Eq, Structural)]
pub struct OsError {
    /// The error number.
    pub code: i32,
}

/// Why a saved state was refused.
#[derive(Clone, Copy, Debug, PartialEq, Eq, Structural)]
pub enum PersistError {
    /// The state contradicts itself.
    InvalidInput,
    /// A queue of the state does not fit guest memory.
    Queue(QueueError),
}

/// Why a queue could not be laid over guest memory, by a number that the host
/// gave the reason.
#[derive(Clone, Copy, Debug, PartialEq, Eq, Structural)]
pub struct QueueError {
    /// The number of the reason.
    pub code: u32,
}

/// The guest put an index into the available ring that no driver may write.
#[derive(Clone, Copy, Debug, PartialEq, Eq, Structural)]
pub struct InvalidAvailIdx;

/// Why an engine that completes later failed a request.
#[derive(Clone, Copy, Debug, PartialEq, Eq, Structural)]
pub enum AsyncIoError {
    /// The operating system reported an error.
    IO(OsError),
}

/// Why an engine failed a request.
#[derive(Clone, Copy, Debug, PartialEq, Eq, Structural)]
pub enum BlockIoError {
    /// The engine completes later.
    Async(AsyncIoError),
}

/// Why a request failed.
#[derive(Clone, Copy, Debug, PartialEq, Eq, Structural)]
pub enum IoErr {
    /// The engine failed it.
    FileEngine(BlockIoError),
}

/// Why a device could not be activated.
#[derive(Clone, Copy, Debug, PartialEq, Eq, Structural)]
pub enum ActivateError {
    /// A queue does not fit guest memory.
    QueueMemoryError(QueueError),
    /// The activation event could not be signalled.
    EventFd,
}

/// Why a block device could not be made, changed or restored.
#[derive(Clone, Debug, PartialEq, Eq)]
pub enum VirtioBlockError {
    /// The configuration does not describe a virtio block device.
    Config,
    /// The backing file, named by its path, could not be opened or measured.
    BackingFile(OsError, String),
    /// The metadata of the backing file could not be read.
    GetFileMetadata(OsError),
    /// The engine that serves the backing file could not be set up.
    FileEngine(OsError),
    /// An event could not be made.
    EventFd(OsError),
    /// A worker thread could not be started.
    ThreadSpawn(OsError),
    /// A rate limiter could not be restored.
    RateLimiter(OsError),
    /// A worker could not be reached, or refused what was asked.
    WorkerControl(String),
    /// The number of queues, and the largest number that is accepted.
    InvalidQueueCount(u16, u16),
    /// More than one queue was asked for without worker threads.
    MultiqueueRequiresThreaded,
    /// The saved state was refused.
    Persist(PersistError),
}

} // verus!
