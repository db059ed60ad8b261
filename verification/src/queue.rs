//! Serving a queue: which step follows which.
//!
//! A pass over the queue, or over the completions of the engine, always has one
//! step pending. The host performs it and reports the outcome, and the outcome
//! decides the next step.

use vstd::prelude::*;

use crate::config::FileEngineType;
use crate::error::InvalidAvailIdx;
use crate::metrics::{count, BlockDeviceMetrics};
use crate::resources::BlockResources;

verus! {

/// A request that is done.
#[derive(Clone, Copy, Debug, PartialEq, Eq, Structural)]
pub struct FinishedRequest {
    /// Number of bytes that were written to guest memory.
    pub num_bytes_to_mem: u32,
    /// Head of the descriptor chain that held the request.
    pub desc_idx: u16,
}

/// What became of a request.
#[derive(Clone, Copy, Debug, PartialEq, Eq, Structural)]
pub enum ProcessingResult {
    /// The engine took it and will complete it.
    Submitted,
    /// The engine was full.
    Throttled,
    /// It is done.
    Executed(FinishedRequest),
}

/// A descriptor chain that was taken from the available ring.
#[derive(Clone, Copy, Debug, PartialEq, Eq, Structural)]
pub struct PoppedChain {
    /// Head of the chain.
    pub head: u16,
    /// Number of chains that are still in the ring.
    pub remaining: u16,
}

/// A step of a pass over the queue.
#[derive(Clone, Copy, Debug, PartialEq, Eq, Structural)]
pub enum QueueStep {
    /// Take the next chain, or turn notifications on if there is none.
    Pop,
    /// Read the request that the chain holds.
    Parse {
        /// Head of the chain.
        head: u16,
    },
    /// Ask the rate limiter for the request.
    RateLimit {
        /// Head of the chain.
        head: u16,
    },
    /// Hand the request to the engine. What is read from the backing file and
    /// written to it is between the request and the engine.
    Process {
        /// Head of the chain.
        head: u16,
    },
    /// Put the chain that was taken last back into the available ring.
    UndoPop {
        /// Head of the chain.
        head: u16,
    },
    /// Put a chain into the used ring.
    AddUsed {
        /// Head of the chain.
        head: u16,
        /// Number of bytes that were written to it.
        len: u32,
    },
    /// Show the used ring to the driver.
    AdvanceUsedRing,
    /// Find out whether the driver wants to be interrupted.
    PrepareKick,
    /// Interrupt the driver for this queue.
    TriggerInterrupt {
        /// Number of the queue.
        queue_index: u16,
    },
    /// Pass on what was submitted to the engine.
    KickSubmissionQueue,
    /// The pass is over.
    Finished(PassResult),
}

/// How a pass over the queue ended.
#[derive(Clone, Copy, Debug, PartialEq, Eq, Structural)]
pub enum PassResult {
    /// Everything that could be served was.
    Served,
    /// The available ring is broken.
    Broken(InvalidAvailIdx),
}

/// What the host reports of the step that was pending.
#[derive(Clone, Copy, Debug, PartialEq, Eq, Structural)]
pub enum QueueOutcome {
    /// A chain was taken.
    Popped(PoppedChain),
    /// There was no chain.
    Empty,
    /// The available ring is broken.
    BadIndex(InvalidAvailIdx),
    /// Whether the request could be read.
    Parsed(bool),
    /// Whether the rate limiter holds the request back.
    RateLimited(bool),
    /// What became of the request.
    Processed(ProcessingResult),
    /// Whether the driver wants to be interrupted.
    KickWanted(bool),
    /// Whether the interrupt was raised.
    Triggered(bool),
    /// The step is done, and nothing depends on how it went.
    Performed,
}

/// A pass over the queue.
#[derive(Clone, Copy, Debug, PartialEq, Eq, Structural)]
pub struct QueuePass {
    /// The step that the host performs next.
    pub pending: QueueStep,
    /// Whether a chain was put into the used ring.
    pub used_any: bool,
}

impl QueueStep {
    /// Whether `outcome` is a report on this step.
    pub open spec fn awaits(self, outcome: QueueOutcome) -> bool {
        match self {
            QueueStep::Pop => outcome is Popped || outcome is Empty || outcome is BadIndex,
            QueueStep::Parse { .. } => outcome is Parsed,
            QueueStep::RateLimit { .. } => outcome is RateLimited,
            QueueStep::Process { .. } => outcome is Processed,
            QueueStep::PrepareKick => outcome is KickWanted,
            QueueStep::TriggerInterrupt { .. } => outcome is Triggered,
            QueueStep::UndoPop { .. } => outcome is Performed,
            QueueStep::AddUsed { .. } => outcome is Performed,
            QueueStep::AdvanceUsedRing => outcome is Performed,
            QueueStep::KickSubmissionQueue => outcome is Performed,
            QueueStep::Finished(_) => false,
        }
    }
}

impl QueuePass {
    /// A pass that has not taken any chain.
    pub open spec fn first() -> QueuePass {
        QueuePass { pending: QueueStep::Pop, used_any: false }
    }

    /// The last step of a pass: an engine that completes later is told to start.
    pub open spec fn last_step(engine: FileEngineType) -> QueueStep {
        match engine {
            FileEngineType::Async => QueueStep::KickSubmissionQueue,
            FileEngineType::Sync => QueueStep::Finished(PassResult::Served),
        }
    }

    /// The pass after `outcome`, for the queue of the given number and engine.
    pub open spec fn after(
        self,
        outcome: QueueOutcome,
        queue_index: u16,
        engine: FileEngineType,
    ) -> QueuePass {
        match self.pending {
            QueueStep::Pop => match outcome {
                QueueOutcome::Popped(chain) => QueuePass {
                    pending: QueueStep::Parse { head: chain.head },
                    ..self
                },
                QueueOutcome::BadIndex(error) => QueuePass {
                    pending: QueueStep::Finished(PassResult::Broken(error)),
                    ..self
                },
                _ => QueuePass { pending: QueueStep::AdvanceUsedRing, ..self },
            },
            QueueStep::Parse { head } => if outcome == QueueOutcome::Parsed(true) {
                QueuePass { pending: QueueStep::RateLimit { head }, ..self }
            } else {
                QueuePass { pending: QueueStep::AddUsed { head, len: 0 }, used_any: true }
            },
            QueueStep::RateLimit { head } => if outcome == QueueOutcome::RateLimited(true) {
                QueuePass { pending: QueueStep::UndoPop { head }, ..self }
            } else {
                QueuePass { pending: QueueStep::Process { head }, ..self }
            },
            QueueStep::Process { head } => match outcome {
                QueueOutcome::Processed(ProcessingResult::Executed(finished)) => QueuePass {
                    pending: QueueStep::AddUsed { head, len: finished.num_bytes_to_mem },
                    used_any: true,
                },
                QueueOutcome::Processed(ProcessingResult::Throttled) => QueuePass {
                    pending: QueueStep::UndoPop { head },
                    ..self
                },
                _ => QueuePass { pending: QueueStep::Pop, ..self },
            },
            QueueStep::UndoPop { .. } => QueuePass {
                pending: QueueStep::AdvanceUsedRing,
                ..self
            },
            QueueStep::AddUsed { .. } => QueuePass { pending: QueueStep::Pop, ..self },
            QueueStep::AdvanceUsedRing => if self.used_any {
                QueuePass { pending: QueueStep::PrepareKick, ..self }
            } else {
                QueuePass { pending: Self::last_step(engine), ..self }
            },
            QueueStep::PrepareKick => if outcome == QueueOutcome::KickWanted(true) {
                QueuePass { pending: QueueStep::TriggerInterrupt { queue_index }, ..self }
            } else {
                QueuePass { pending: Self::last_step(engine), ..self }
            },
            QueueStep::TriggerInterrupt { .. } => QueuePass {
                pending: Self::last_step(engine),
                ..self
            },
            QueueStep::KickSubmissionQueue => QueuePass {
                pending: QueueStep::Finished(PassResult::Served),
                ..self
            },
            QueueStep::Finished(_) => self,
        }
    }

    /// What the counters gain by `outcome`.
    pub open spec fn counted(
        self,
        outcome: QueueOutcome,
        next: QueuePass,
        metrics: BlockDeviceMetrics,
    ) -> BlockDeviceMetrics {
        match outcome {
            QueueOutcome::Popped(chain) => BlockDeviceMetrics {
                remaining_reqs_count: crate::metrics::counted(
                    metrics.remaining_reqs_count,
                    chain.remaining as int,
                ),
                ..metrics
            },
            QueueOutcome::Parsed(false) => BlockDeviceMetrics {
                execute_fails: crate::metrics::counted(metrics.execute_fails, 1),
                ..metrics
            },
            QueueOutcome::RateLimited(true) => BlockDeviceMetrics {
                rate_limiter_throttled_events: crate::metrics::counted(
                    metrics.rate_limiter_throttled_events,
                    1,
                ),
                ..metrics
            },
            QueueOutcome::Triggered(false) => BlockDeviceMetrics {
                event_fails: crate::metrics::counted(metrics.event_fails, 1),
                ..metrics
            },
            _ => if next.pending == QueueStep::Finished(PassResult::Served) && !self.used_any {
                BlockDeviceMetrics {
                    no_avail_buffer: crate::metrics::counted(metrics.no_avail_buffer, 1),
                    ..metrics
                }
            } else {
                metrics
            },
        }
    }
}

/// The last step of a pass over the queue.
fn last_step(engine: FileEngineType) -> (step: QueueStep)
    ensures
        step == QueuePass::last_step(engine),
{
    match engine {
        FileEngineType::Async => QueueStep::KickSubmissionQueue,
        FileEngineType::Sync => QueueStep::Finished(PassResult::Served),
    }
}

impl QueuePass {
    /// Starts a pass: the first step is to take a chain.
    pub fn new() -> (pass: QueuePass)
        ensures
            pass == QueuePass::first(),
    {
        QueuePass { pending: QueueStep::Pop, used_any: false }
    }

    /// Takes the report on the pending step and decides the next one. An engine
    /// that was full leaves its mark in the resources of the queue.
    pub fn advance<T>(
        &mut self,
        outcome: QueueOutcome,
        resources: &mut BlockResources<T>,
        metrics: &mut BlockDeviceMetrics,
    )
        requires
            old(self).pending.awaits(outcome),
        ensures
            *final(self) == old(self).after(
                outcome,
                old(resources).queue_index,
                old(resources).disk.file_engine,
            ),
            *final(resources) == (BlockResources {
                is_io_engine_throttled: old(resources).is_io_engine_throttled || outcome
                    == QueueOutcome::Processed(ProcessingResult::Throttled),
                ..*old(resources)
            }),
            *final(metrics) == old(self).counted(outcome, *final(self), *old(metrics)),
    {
        let engine = resources.disk.file_engine;
        match self.pending {
            QueueStep::Pop => match outcome {
                QueueOutcome::Popped(chain) => {
                    count(&mut metrics.remaining_reqs_count, chain.remaining as u64);
                    self.pending = QueueStep::Parse { head: chain.head };
                },
                QueueOutcome::BadIndex(error) => {
                    self.pending = QueueStep::Finished(PassResult::Broken(error));
                },
                _ => {
                    self.pending = QueueStep::AdvanceUsedRing;
                },
            },
            QueueStep::Parse { head } => match outcome {
                QueueOutcome::Parsed(true) => {
                    self.pending = QueueStep::RateLimit { head };
                },
                _ => {
                    count(&mut metrics.execute_fails, 1);
                    self.pending = QueueStep::AddUsed { head, len: 0 };
                    self.used_any = true;
                },
            },
            QueueStep::RateLimit { head } => match outcome {
                QueueOutcome::RateLimited(true) => {
                    count(&mut metrics.rate_limiter_throttled_events, 1);
                    self.pending = QueueStep::UndoPop { head };
                },
                _ => {
                    self.pending = QueueStep::Process { head };
                },
            },
            QueueStep::Process { head } => match outcome {
                QueueOutcome::Processed(ProcessingResult::Executed(finished)) => {
                    self.pending = QueueStep::AddUsed { head, len: finished.num_bytes_to_mem };
                    self.used_any = true;
                },
                QueueOutcome::Processed(ProcessingResult::Throttled) => {
                    self.pending = QueueStep::UndoPop { head };
                    resources.is_io_engine_throttled = true;
                },
                _ => {
                    self.pending = QueueStep::Pop;
                },
            },
            QueueStep::UndoPop { .. } => {
                self.pending = QueueStep::AdvanceUsedRing;
            },
            QueueStep::AddUsed { .. } => {
                self.pending = QueueStep::Pop;
            },
            QueueStep::AdvanceUsedRing => {
                if self.used_any {
                    self.pending = QueueStep::PrepareKick;
                } else {
                    self.finish(engine, metrics);
                }
            },
            QueueStep::PrepareKick => match outcome {
                QueueOutcome::KickWanted(true) => {
                    self.pending = QueueStep::TriggerInterrupt {
                        queue_index: resources.queue_index,
                    };
                },
                _ => {
                    self.finish(engine, metrics);
                },
            },
            QueueStep::TriggerInterrupt { .. } => match outcome {
                QueueOutcome::Triggered(false) => {
                    count(&mut metrics.event_fails, 1);
                    self.pending = last_step(engine);
                },
                _ => {
                    self.finish(engine, metrics);
                },
            },
            QueueStep::KickSubmissionQueue => {
                self.finish(FileEngineType::Sync, metrics);
            },
            QueueStep::Finished(_) => {},
        }
    }

    /// Goes on to the last step, and counts a pass that used nothing once it is
    /// over.
    fn finish(&mut self, engine: FileEngineType, metrics: &mut BlockDeviceMetrics)
        ensures
            *final(self) == (QueuePass { pending: Self::last_step(engine), ..*old(self) }),
            *final(metrics) == if engine == FileEngineType::Sync && !old(self).used_any {
                BlockDeviceMetrics {
                    no_avail_buffer: crate::metrics::counted(old(metrics).no_avail_buffer, 1),
                    ..*old(metrics)
                }
            } else {
                *old(metrics)
            },
    {
        self.pending = last_step(engine);
        if let FileEngineType::Sync = engine {
            if !self.used_any {
                count(&mut metrics.no_avail_buffer, 1);
            }
        }
    }
}

} // verus!
