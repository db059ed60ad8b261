//! Serving one queue, in place or on a thread of its own.

use vstd::prelude::*;

use crate::completion::CompletionPass;
use crate::completion::CompletionStep;
use crate::config::{BucketUpdate, FileEngineType};
use crate::disk::ImageReport;
use crate::error::VirtioBlockError;
use crate::metrics::{count, BlockDeviceMetrics};
use crate::queue::QueuePass;
use crate::resources::BlockResources;

verus! {

/// Who serves a queue: its resources, and what it got with the activation.
///
/// `A` stands for guest memory and the interrupt line, into which the worker
/// never looks.
#[derive(Debug)]
pub struct BlockWorker<T, A> {
    /// The data path of the queue.
    pub resources: BlockResources<T>,
    /// Guest memory and the interrupt line.
    pub active_state: A,
}

/// How a worker is wound up.
#[derive(Clone, Copy, Debug, PartialEq, Eq, Structural)]
pub enum FlushMode {
    /// Wait for what was submitted.
    Drain,
    /// Wait for what was submitted, then flush the backing file.
    DrainAndFlush,
}

/// Work of the host on the queue of a worker, or an answer to who asked.
#[derive(Clone, Debug, PartialEq, Eq)]
pub enum WorkerEffect {
    /// Watch the queue event, the rate limiter and the completions.
    RegisterRuntimeEvents,
    /// Stop watching them.
    UnregisterRuntimeEvents,
    /// Wait for what was submitted; completions are discarded on demand.
    Drain {
        /// Whether completions are discarded.
        discard: bool,
    },
    /// Wait for what was submitted, then flush the backing file.
    DrainAndFlush {
        /// Whether completions are discarded.
        discard: bool,
    },
    /// Collect what the engine has completed.
    ProcessCompletions,
    /// Serve the queue.
    ProcessQueue,
    /// Reset the queue.
    ResetQueue,
    /// Change the buckets of the rate limiter: first bandwidth, then operations.
    UpdateBuckets(BucketUpdate, BucketUpdate),
    /// Open the file at the path, read-only or not, hand the report to
    /// `finish_disk_update`, and answer with its result.
    UpdateDisk(String, bool),
    /// Answer that the backing file was not replaced, as
    /// `disk_update_refused` has it.
    RefuseDiskUpdate,
    /// Collect the state of the queue and of the rate limiter, and answer with
    /// `saved_state`.
    SendSavedState,
    /// Lay the queue over guest memory again, so that its pages count as dirty,
    /// and answer with the outcome.
    MarkQueueDirty,
    /// Answer that the pages of the queue are dirty.
    SendQueueDirty,
    /// Answer that the worker is paused.
    SendPaused,
    /// Answer with the resources of the worker that was released, or with none.
    SendReset,
}

/// The work by which a worker makes the backing file reflect all requests.
pub open spec fn save_work(engine: FileEngineType) -> Seq<WorkerEffect> {
    match engine {
        FileEngineType::Async => seq![
            WorkerEffect::DrainAndFlush { discard: false },
            WorkerEffect::ProcessCompletions,
        ],
        FileEngineType::Sync => seq![WorkerEffect::DrainAndFlush { discard: false }],
    }
}

/// The work by which a worker is wound up.
pub open spec fn flush_work(mode: FlushMode) -> WorkerEffect {
    match mode {
        FlushMode::Drain => WorkerEffect::Drain { discard: true },
        FlushMode::DrainAndFlush => WorkerEffect::DrainAndFlush { discard: true },
    }
}

/// The work by which a worker is wound up.
pub fn flush_effect(mode: FlushMode) -> (effect: WorkerEffect)
    ensures
        effect == flush_work(mode),
{
    match mode {
        FlushMode::Drain => WorkerEffect::Drain { discard: true },
        FlushMode::DrainAndFlush => WorkerEffect::DrainAndFlush { discard: true },
    }
}

impl<T, A> BlockWorker<T, A> {
    /// Decides what a notification of the driver leads to. The queue is served
    /// unless the notification could not be read, the rate limiter is blocked or
    /// the engine is full.
    pub fn process_queue_event(
        &self,
        event_read: bool,
        rate_limiter_blocked: bool,
        metrics: &mut BlockDeviceMetrics,
    ) -> (pass: Option<QueuePass>)
        ensures
            pass == if event_read && !rate_limiter_blocked
                && !self.resources.is_io_engine_throttled {
                Some(QueuePass::first())
            } else {
                None
            },
            final(metrics).queue_event_count == crate::metrics::counted(
                old(metrics).queue_event_count,
                1,
            ),
            *final(metrics) == (if !event_read {
                BlockDeviceMetrics {
                    queue_event_count: final(metrics).queue_event_count,
                    event_fails: crate::metrics::counted(old(metrics).event_fails, 1),
                    ..*old(metrics)
                }
            } else if rate_limiter_blocked {
                BlockDeviceMetrics {
                    queue_event_count: final(metrics).queue_event_count,
                    rate_limiter_throttled_events: crate::metrics::counted(
                        old(metrics).rate_limiter_throttled_events,
                        1,
                    ),
                    ..*old(metrics)
                }
            } else if self.resources.is_io_engine_throttled {
                BlockDeviceMetrics {
                    queue_event_count: final(metrics).queue_event_count,
                    io_engine_throttled_events: crate::metrics::counted(
                        old(metrics).io_engine_throttled_events,
                        1,
                    ),
                    ..*old(metrics)
                }
            } else {
                BlockDeviceMetrics {
                    queue_event_count: final(metrics).queue_event_count,
                    ..*old(metrics)
                }
            }),
    {
        count(&mut metrics.queue_event_count, 1);
        if !event_read {
            count(&mut metrics.event_fails, 1);
            None
        } else if rate_limiter_blocked {
            count(&mut metrics.rate_limiter_throttled_events, 1);
            None
        } else if self.resources.is_io_engine_throttled {
            count(&mut metrics.io_engine_throttled_events, 1);
            None
        } else {
            Some(self.process_virtio_queues())
        }
    }

    /// Starts to serve the queue.
    pub fn process_virtio_queues(&self) -> (pass: QueuePass)
        ensures
            pass == QueuePass::first(),
    {
        QueuePass::new()
    }

    /// Decides what an event of the rate limiter leads to: the queue is served
    /// if the rate limiter took the event.
    pub fn process_rate_limiter_event(
        &self,
        handled: bool,
        metrics: &mut BlockDeviceMetrics,
    ) -> (pass: Option<QueuePass>)
        ensures
            pass == if handled {
                Some(QueuePass::first())
            } else {
                None
            },
            *final(metrics) == (BlockDeviceMetrics {
                rate_limiter_event_count: crate::metrics::counted(
                    old(metrics).rate_limiter_event_count,
                    1,
                ),
                ..*old(metrics)
            }),
    {
        count(&mut metrics.rate_limiter_event_count, 1);
        if handled {
            Some(self.process_virtio_queues())
        } else {
            None
        }
    }

    /// Starts to collect completions, where the engine completes later.
    pub fn process_async_completion_queue(&self) -> (pass: Option<CompletionPass>)
        ensures
            match self.resources.disk.file_engine {
                FileEngineType::Async => pass == Some(
                    CompletionPass { pending: CompletionStep::Pop },
                ),
                FileEngineType::Sync => pass is None,
            },
    {
        match self.resources.disk.file_engine {
            FileEngineType::Async => Some(CompletionPass::new()),
            FileEngineType::Sync => None,
        }
    }

    /// Decides what a completion event leads to: completions are collected if
    /// the event could be read. When they are, `resume_after_completions` says
    /// how it goes on.
    pub fn process_async_completion_event(&self, event_read: bool) -> (pass: Option<
        CompletionPass,
    >)
        ensures
            match self.resources.disk.file_engine {
                FileEngineType::Async => pass == if event_read {
                    Some(CompletionPass { pending: CompletionStep::Pop })
                } else {
                    None
                },
                FileEngineType::Sync => pass is None,
            },
    {
        if event_read {
            self.process_async_completion_queue()
        } else {
            None
        }
    }

    /// Serves the queue again if the engine was full before its completions were
    /// collected.
    pub fn resume_after_completions(&mut self) -> (pass: Option<QueuePass>)
        ensures
            pass == if old(self).resources.is_io_engine_throttled {
                Some(QueuePass::first())
            } else {
                None
            },
            *final(self) == (BlockWorker { resources: old(self).resources.reset(), ..*old(self) }),
    {
        if self.resources.is_io_engine_throttled {
            self.resources.is_io_engine_throttled = false;
            Some(self.process_virtio_queues())
        } else {
            None
        }
    }

    /// The work by which the device is made ready to be saved.
    pub fn prepare_save(&self) -> (effects: Vec<WorkerEffect>)
        ensures
            effects@ == save_work(self.resources.disk.file_engine),
    {
        let mut effects: Vec<WorkerEffect> = Vec::new();
        effects.push(WorkerEffect::DrainAndFlush { discard: false });
        if let FileEngineType::Async = self.resources.disk.file_engine {
            effects.push(WorkerEffect::ProcessCompletions);
        }
        effects
    }

    /// Replaces the backing file and returns its number of sectors.
    pub fn update_disk_image(&mut self, disk_image_path: String, report: ImageReport) -> (result:
        Result<u64, VirtioBlockError>)
        ensures
            old(self).resources.disk.updates_to(
                disk_image_path,
                report,
                final(self).resources.disk,
                result_unit(result),
            ),
            result matches Ok(nsectors) ==> nsectors == final(self).resources.disk.nsectors,
            *final(self) == (BlockWorker {
                resources: BlockResources {
                    disk: final(self).resources.disk,
                    ..old(self).resources
                },
                ..*old(self)
            }),
    {
        match self.resources.disk.update(disk_image_path, report) {
            Ok(_) => Ok(self.resources.disk.nsectors),
            Err(error) => Err(error),
        }
    }

    /// The work by which the rate limiter is changed.
    pub fn update_rate_limiter(&self, bytes: BucketUpdate, ops: BucketUpdate) -> (effect:
        WorkerEffect)
        ensures
            effect == WorkerEffect::UpdateBuckets(bytes, ops),
    {
        WorkerEffect::UpdateBuckets(bytes, ops)
    }
}

/// A result without the value of its success.
pub open spec fn result_unit<V>(result: Result<V, VirtioBlockError>) -> Result<
    (),
    VirtioBlockError,
> {
    match result {
        Ok(_) => Ok(()),
        Err(error) => Err(error),
    }
}

/// Before a device is saved, what was submitted is waited for and flushed, and
/// nothing is discarded. Where the engine completes later, what it completed is
/// collected after that.
pub proof fn law_saving_waits_and_flushes(engine: FileEngineType, i: int)
    ensures
        save_work(engine).len() > 0,
        save_work(engine)[0] == (WorkerEffect::DrainAndFlush { discard: false }),
        save_work(engine).contains(WorkerEffect::ProcessCompletions) <==> engine is Async,
        0 <= i < save_work(engine).len() ==> save_work(engine)[i] != (WorkerEffect::Drain {
            discard: true,
        }) && save_work(engine)[i] != (WorkerEffect::DrainAndFlush { discard: true }),
        engine is Async ==> save_work(engine).last() is ProcessCompletions,
{
    if engine is Async {
        assert(save_work(engine)[1] is ProcessCompletions);
    }
}

/// Winding up waits for what was submitted, discards completions, and flushes
/// exactly if that is asked for.
pub proof fn law_winding_up_flushes_on_demand(mode: FlushMode)
    ensures
        flush_work(mode) == (WorkerEffect::DrainAndFlush { discard: true }) <==> mode
            is DrainAndFlush,
        flush_work(mode) == (WorkerEffect::Drain { discard: true }) <==> mode is Drain,
{
}

/// A result without its value fails exactly if the result does, with the same
/// error.
pub proof fn law_results_keep_their_error<V>(result: Result<V, VirtioBlockError>)
    ensures
        result_unit(result) is Ok <==> result is Ok,
        result matches Err(error) ==> result_unit(result) == Err::<(), VirtioBlockError>(error),
{
}

} // verus!
