//! The worker thread of a queue: how it obeys the device.

use vstd::prelude::*;

use crate::config::{BucketUpdate, FileEngineType};
use crate::disk::ImageReport;
use crate::error::VirtioBlockError;
use crate::events::{is_supported, readable, reads_only, runtime_registrations, watch_readable};
use crate::events::{EventSource, Registration};
use crate::metrics::{count, BlockDeviceMetrics};
use crate::persist::FileEngineTypeState;
use crate::resources::BlockResources;
use crate::worker::{flush_effect, flush_work, result_unit, save_work};
use crate::worker::{BlockWorker, FlushMode, WorkerEffect};

verus! {

/// Number under which the queue event is reported to a worker thread.
pub const PROCESS_QUEUE: u32 = 0;

/// Number under which the rate limiter is reported to a worker thread.
pub const PROCESS_RATE_LIMITER: u32 = 1;

/// Number under which completions are reported to a worker thread.
pub const PROCESS_ASYNC_COMPLETION: u32 = 2;

/// Number under which messages are reported to a worker thread.
pub const PROCESS_CONTROL: u32 = 3;

/// Where a worker thread stands.
#[derive(Debug)]
pub enum WorkerState<T, A> {
    /// It has no queue.
    Parked,
    /// It serves its queue.
    Running(BlockWorker<T, A>),
    /// It holds its queue and does not serve it.
    Paused(BlockWorker<T, A>),
    /// It is about to end.
    Finished,
}

/// What the device asks of a worker thread.
#[derive(Debug)]
pub enum ControlMsg<T, A> {
    /// Serve this queue.
    Start(BlockWorker<T, A>),
    /// Replace the backing file by the one at the path, read-only or not.
    UpdateDiskImage(String, bool),
    /// Change the buckets of the rate limiter: first bandwidth, then operations.
    UpdateRateLimiter(BucketUpdate, BucketUpdate),
    /// Go on, and serve the queue now.
    Kick,
    /// Stop serving the queue, and keep it.
    Pause,
    /// Give the state of the queue.
    GetSavedState,
    /// Make the pages of the queue count as dirty.
    MarkQMemDirty,
    /// Give the queue back.
    Reset,
    /// End.
    Finish(FlushMode),
}

/// What a worker knows when it is saved: the state `Q` of its queue and the
/// state `R` of its rate limiter, as the host keeps them, and its backing file.
#[derive(Debug)]
pub struct SavedState<Q, R> {
    /// State of the queue.
    pub queue_state: Q,
    /// State of the rate limiter.
    pub rate_limiter_state: R,
    /// Path of the backing file.
    pub disk_path: String,
    /// Engine that serves the backing file.
    pub file_engine_type: FileEngineTypeState,
}

/// A worker thread.
#[derive(Debug)]
pub struct ThreadedWorker<T, A> {
    /// Where it stands.
    pub state: WorkerState<T, A>,
}

/// What follows from a message.
#[derive(Debug)]
pub struct ControlOutcome<T, A> {
    /// The work to do, in order. It concerns the worker that was released, if
    /// there is one, and otherwise the worker that the thread holds.
    pub effects: Vec<WorkerEffect>,
    /// The worker that the thread gave up.
    pub released: Option<BlockWorker<T, A>>,
}

/// A transition of a worker thread: its next state, the work to do, and the
/// worker that it gives up.
pub struct Transition<T, A> {
    pub state: WorkerState<T, A>,
    pub effects: Seq<WorkerEffect>,
    pub released: Option<BlockWorker<T, A>>,
}

impl<T, A> BlockWorker<T, A> {
    /// The worker with a queue that is ready to be activated again.
    pub open spec fn reset(self) -> Self {
        BlockWorker { resources: self.resources.reset(), ..self }
    }
}

impl<T, A> WorkerState<T, A> {
    /// The worker that the thread holds.
    pub open spec fn worker(self) -> Option<BlockWorker<T, A>> {
        match self {
            WorkerState::Running(worker) => Some(worker),
            WorkerState::Paused(worker) => Some(worker),
            _ => None,
        }
    }

    /// The handler of an event.
    pub open spec fn dispatch(self, source: u32, event_set: u32) -> Option<EventSource> {
        if !reads_only(event_set) {
            None
        } else if source == PROCESS_CONTROL {
            Some(EventSource::Control)
        } else if !(self is Running) {
            None
        } else if source == PROCESS_QUEUE {
            Some(EventSource::Queue)
        } else if source == PROCESS_RATE_LIMITER {
            Some(EventSource::RateLimiter)
        } else if source == PROCESS_ASYNC_COMPLETION {
            Some(EventSource::AsyncCompletion)
        } else {
            None
        }
    }

    /// A transition that keeps the worker.
    pub open spec fn stays(self, effects: Seq<WorkerEffect>) -> Transition<T, A> {
        Transition { state: self, effects, released: None }
    }

    /// What a message leads to.
    pub open spec fn after(self, msg: ControlMsg<T, A>) -> Transition<T, A> {
        match msg {
            ControlMsg::Start(worker) => if self is Parked {
                WorkerState::Running(worker).stays(seq![WorkerEffect::RegisterRuntimeEvents])
            } else {
                self.stays(seq![])
            },
            ControlMsg::UpdateDiskImage(path, read_only) => if self.worker() is Some {
                self.stays(seq![WorkerEffect::UpdateDisk(path, read_only)])
            } else {
                self.stays(seq![WorkerEffect::RefuseDiskUpdate])
            },
            ControlMsg::UpdateRateLimiter(bytes, ops) => if self.worker() is Some {
                self.stays(seq![WorkerEffect::UpdateBuckets(bytes, ops)])
            } else {
                self.stays(seq![])
            },
            ControlMsg::Kick => match self {
                WorkerState::Running(worker) => self.stays(seq![WorkerEffect::ProcessQueue]),
                WorkerState::Paused(worker) => WorkerState::Running(worker).stays(
                    seq![WorkerEffect::RegisterRuntimeEvents, WorkerEffect::ProcessQueue],
                ),
                _ => self.stays(seq![]),
            },
            ControlMsg::Pause => match self {
                WorkerState::Running(worker) => WorkerState::Paused(worker).stays(
                    seq![WorkerEffect::UnregisterRuntimeEvents] + save_work(
                        worker.resources.disk.file_engine,
                    ) + seq![WorkerEffect::SendPaused],
                ),
                WorkerState::Paused(worker) => self.stays(seq![WorkerEffect::SendPaused]),
                _ => self.stays(seq![]),
            },
            ControlMsg::GetSavedState => if self.worker() is Some {
                self.stays(seq![WorkerEffect::SendSavedState])
            } else {
                self.stays(seq![])
            },
            ControlMsg::MarkQMemDirty => if self is Paused {
                self.stays(seq![WorkerEffect::MarkQueueDirty])
            } else {
                self.stays(seq![WorkerEffect::SendQueueDirty])
            },
            ControlMsg::Reset => match self {
                WorkerState::Running(worker) => Transition {
                    state: WorkerState::Parked,
                    effects: seq![
                        WorkerEffect::UnregisterRuntimeEvents,
                        WorkerEffect::Drain { discard: true },
                        WorkerEffect::ResetQueue,
                        WorkerEffect::SendReset,
                    ],
                    released: Some(worker.reset()),
                },
                WorkerState::Paused(worker) => Transition {
                    state: WorkerState::Parked,
                    effects: seq![
                        WorkerEffect::Drain { discard: true },
                        WorkerEffect::ResetQueue,
                        WorkerEffect::SendReset,
                    ],
                    released: Some(worker.reset()),
                },
                WorkerState::Parked => self.stays(seq![WorkerEffect::SendReset]),
                WorkerState::Finished => self.stays(seq![]),
            },
            ControlMsg::Finish(mode) => match self {
                WorkerState::Running(worker) => Transition {
                    state: WorkerState::Finished,
                    effects: seq![WorkerEffect::UnregisterRuntimeEvents, flush_work(mode)],
                    released: Some(worker.reset()),
                },
                WorkerState::Paused(worker) => Transition {
                    state: WorkerState::Finished,
                    effects: seq![flush_work(mode)],
                    released: Some(worker.reset()),
                },
                _ => WorkerState::Finished.stays(seq![]),
            },
        }
    }
}

/// The event that a thread watches all the time.
pub open spec fn control_event() -> Registration {
    readable(EventSource::Control, PROCESS_CONTROL)
}

/// The engine of a saved device.
pub open spec fn saved_engine(engine: FileEngineType) -> FileEngineTypeState {
    match engine {
        FileEngineType::Sync => FileEngineTypeState::Sync,
        FileEngineType::Async => FileEngineTypeState::Async,
    }
}

/// The error of who asks a thread without a queue for another backing file.
pub fn disk_update_refused() -> (error: VirtioBlockError)
    ensures
        error matches VirtioBlockError::WorkerControl(text) && text@
            == "disk image update requested while block worker is not running"@,
{
    VirtioBlockError::WorkerControl(
        "disk image update requested while block worker is not running".to_string(),
    )
}

/// The list of one effect.
fn only(effect: WorkerEffect) -> (effects: Vec<WorkerEffect>)
    ensures
        effects@ == seq![effect],
{
    let mut effects: Vec<WorkerEffect> = Vec::new();
    effects.push(effect);
    effects
}

impl<T, A> ThreadedWorker<T, A> {
    /// A worker thread without a queue.
    pub fn new() -> (worker: Self)
        ensures
            worker.state is Parked,
    {
        ThreadedWorker { state: WorkerState::Parked }
    }

    /// Obeys a message of the device.
    pub fn process_control_msg(&mut self, msg: ControlMsg<T, A>) -> (outcome: ControlOutcome<T, A>)
        ensures
            final(self).state == old(self).state.after(msg).state,
            outcome.effects@ == old(self).state.after(msg).effects,
            outcome.released == old(self).state.after(msg).released,
    {
        match msg {
            ControlMsg::Start(worker) => self.start_worker(worker),
            ControlMsg::UpdateDiskImage(path, read_only) => {
                let effect = if self.has_worker() {
                    WorkerEffect::UpdateDisk(path, read_only)
                } else {
                    WorkerEffect::RefuseDiskUpdate
                };
                ControlOutcome { effects: only(effect), released: None }
            },
            ControlMsg::UpdateRateLimiter(bytes, ops) => {
                let effects = match &self.state {
                    WorkerState::Running(worker) => only(worker.update_rate_limiter(bytes, ops)),
                    WorkerState::Paused(worker) => only(worker.update_rate_limiter(bytes, ops)),
                    _ => Vec::new(),
                };
                ControlOutcome { effects, released: None }
            },
            ControlMsg::Pause => self.pause_worker(),
            ControlMsg::Reset => self.reset_worker(),
            ControlMsg::Kick => {
                let mut effects: Vec<WorkerEffect> = Vec::new();
                if let WorkerState::Paused(_) = &self.state {
                    effects = self.resume_worker();
                }
                if let WorkerState::Running(_) = &self.state {
                    effects.push(WorkerEffect::ProcessQueue);
                }
                ControlOutcome { effects, released: None }
            },
            ControlMsg::Finish(mode) => self.finish_worker(mode),
            ControlMsg::GetSavedState => {
                let effects = if self.has_worker() {
                    only(WorkerEffect::SendSavedState)
                } else {
                    Vec::new()
                };
                ControlOutcome { effects, released: None }
            },
            ControlMsg::MarkQMemDirty => {
                let effect = if let WorkerState::Paused(_) = &self.state {
                    WorkerEffect::MarkQueueDirty
                } else {
                    WorkerEffect::SendQueueDirty
                };
                ControlOutcome { effects: only(effect), released: None }
            },
        }
    }

    /// Takes a queue, if the thread has none.
    fn start_worker(&mut self, worker: BlockWorker<T, A>) -> (outcome: ControlOutcome<T, A>)
        ensures
            final(self).state == old(self).state.after(ControlMsg::Start(worker)).state,
            outcome.effects@ == old(self).state.after(ControlMsg::Start(worker)).effects,
            outcome.released == old(self).state.after(ControlMsg::Start(worker)).released,
    {
        if let WorkerState::Parked = &self.state {
            self.state = WorkerState::Running(worker);
            ControlOutcome { effects: only(WorkerEffect::RegisterRuntimeEvents), released: None }
        } else {
            ControlOutcome { effects: Vec::new(), released: None }
        }
    }

    /// Takes the state out, and leaves the thread parked.
    fn take_state(&mut self) -> (state: WorkerState<T, A>)
        ensures
            state == old(self).state,
            final(self).state is Parked,
    {
        let mut state = WorkerState::Parked;
        std::mem::swap(&mut self.state, &mut state);
        state
    }

    /// Stops serving the queue, and keeps it.
    fn pause_worker(&mut self) -> (outcome: ControlOutcome<T, A>)
        ensures
            final(self).state == old(self).state.after(ControlMsg::Pause).state,
            outcome.effects@ == old(self).state.after(ControlMsg::Pause).effects,
            outcome.released == old(self).state.after(ControlMsg::Pause).released,
    {
        let mut effects: Vec<WorkerEffect> = Vec::new();
        match self.take_state() {
            WorkerState::Running(worker) => {
                effects.push(WorkerEffect::UnregisterRuntimeEvents);
                let mut saving = worker.prepare_save();
                effects.append(&mut saving);
                effects.push(WorkerEffect::SendPaused);
                self.state = WorkerState::Paused(worker);
            },
            WorkerState::Paused(worker) => {
                effects.push(WorkerEffect::SendPaused);
                self.state = WorkerState::Paused(worker);
            },
            other => {
                self.state = other;
            },
        }
        ControlOutcome { effects, released: None }
    }

    /// Serves the queue of a paused thread again.
    fn resume_worker(&mut self) -> (effects: Vec<WorkerEffect>)
        ensures
            match old(self).state {
                WorkerState::Paused(worker) => {
                    &&& final(self).state == WorkerState::Running(worker)
                    &&& effects@ == seq![WorkerEffect::RegisterRuntimeEvents]
                },
                _ => {
                    &&& final(self).state == old(self).state
                    &&& effects@ == Seq::<WorkerEffect>::empty()
                },
            },
    {
        match self.take_state() {
            WorkerState::Paused(worker) => {
                self.state = WorkerState::Running(worker);
                only(WorkerEffect::RegisterRuntimeEvents)
            },
            other => {
                self.state = other;
                Vec::new()
            },
        }
    }

    /// Gives the queue back, ready to be activated again.
    fn reset_worker(&mut self) -> (outcome: ControlOutcome<T, A>)
        ensures
            final(self).state == old(self).state.after(ControlMsg::Reset).state,
            outcome.effects@ == old(self).state.after(ControlMsg::Reset).effects,
            outcome.released == old(self).state.after(ControlMsg::Reset).released,
    {
        let mut effects: Vec<WorkerEffect> = Vec::new();
        match self.take_state() {
            WorkerState::Running(mut worker) => {
                effects.push(WorkerEffect::UnregisterRuntimeEvents);
                effects.push(WorkerEffect::Drain { discard: true });
                worker.resources.reset_for_reactivation();
                effects.push(WorkerEffect::ResetQueue);
                effects.push(WorkerEffect::SendReset);
                ControlOutcome { effects, released: Some(worker) }
            },
            WorkerState::Paused(mut worker) => {
                effects.push(WorkerEffect::Drain { discard: true });
                worker.resources.reset_for_reactivation();
                effects.push(WorkerEffect::ResetQueue);
                effects.push(WorkerEffect::SendReset);
                ControlOutcome { effects, released: Some(worker) }
            },
            WorkerState::Parked => {
                effects.push(WorkerEffect::SendReset);
                ControlOutcome { effects, released: None }
            },
            WorkerState::Finished => {
                self.state = WorkerState::Finished;
                ControlOutcome { effects, released: None }
            },
        }
    }

    /// Winds the thread up.
    fn finish_worker(&mut self, mode: FlushMode) -> (outcome: ControlOutcome<T, A>)
        ensures
            final(self).state == old(self).state.after(ControlMsg::Finish(mode)).state,
            outcome.effects@ == old(self).state.after(ControlMsg::Finish(mode)).effects,
            outcome.released == old(self).state.after(ControlMsg::Finish(mode)).released,
    {
        let mut effects: Vec<WorkerEffect> = Vec::new();
        let released = match self.take_state() {
            WorkerState::Running(mut worker) => {
                effects.push(WorkerEffect::UnregisterRuntimeEvents);
                effects.push(flush_effect(mode));
                worker.resources.is_io_engine_throttled = false;
                Some(worker)
            },
            WorkerState::Paused(mut worker) => {
                effects.push(flush_effect(mode));
                worker.resources.is_io_engine_throttled = false;
                Some(worker)
            },
            _ => None,
        };
        self.state = WorkerState::Finished;
        ControlOutcome { effects, released }
    }

    /// Whether the thread holds a queue.
    pub fn has_worker(&self) -> (held: bool)
        ensures
            held == self.state.worker() is Some,
    {
        match &self.state {
            WorkerState::Running(_) => true,
            WorkerState::Paused(_) => true,
            _ => false,
        }
    }

    /// Whether the thread is about to end.
    pub fn is_finished(&self) -> (finished: bool)
        ensures
            finished == self.state is Finished,
    {
        match &self.state {
            WorkerState::Finished => true,
            _ => false,
        }
    }

    /// Replaces the backing file by the one that the host opened, and returns
    /// its number of sectors.
    pub fn finish_disk_update(&mut self, path: String, report: ImageReport) -> (result: Result<
        u64,
        VirtioBlockError,
    >)
        requires
            old(self).state.worker() is Some,
        ensures
            final(self).state.worker() is Some,
            final(self).state is Running == old(self).state is Running,
            ({
                let before = old(self).state.worker()->Some_0;
                let after = final(self).state.worker()->Some_0;
                &&& before.resources.disk.updates_to(
                    path,
                    report,
                    after.resources.disk,
                    result_unit(result),
                )
                &&& result matches Ok(nsectors) ==> nsectors == after.resources.disk.nsectors
                &&& after == (BlockWorker {
                    resources: BlockResources {
                        disk: after.resources.disk,
                        ..before.resources
                    },
                    ..before
                })
            }),
    {
        match &mut self.state {
            WorkerState::Running(worker) => worker.update_disk_image(path, report),
            WorkerState::Paused(worker) => worker.update_disk_image(path, report),
            _ => Err(disk_update_refused()),
        }
    }

    /// What the worker knows when it is saved, given the state of its queue and
    /// of its rate limiter.
    pub fn saved_state<Q, R>(&self, queue_state: Q, rate_limiter_state: R) -> (saved: Option<
        SavedState<Q, R>,
    >)
        ensures
            saved == match self.state.worker() {
                Some(worker) => Some(
                    SavedState {
                        queue_state,
                        rate_limiter_state,
                        disk_path: worker.resources.disk.file_path,
                        file_engine_type: saved_engine(worker.resources.disk.file_engine),
                    },
                ),
                None => None,
            },
    {
        match &self.state {
            WorkerState::Running(worker) => Some(
                SavedState {
                    queue_state,
                    rate_limiter_state,
                    disk_path: worker.resources.disk.file_path.clone(),
                    file_engine_type: FileEngineTypeState::from(worker.resources.disk.file_engine),
                },
            ),
            WorkerState::Paused(worker) => Some(
                SavedState {
                    queue_state,
                    rate_limiter_state,
                    disk_path: worker.resources.disk.file_path.clone(),
                    file_engine_type: FileEngineTypeState::from(worker.resources.disk.file_engine),
                },
            ),
            _ => None,
        }
    }

    /// The events that a thread watches while it serves a queue.
    pub fn runtime_events(resources: &BlockResources<T>) -> (events: Vec<Registration>)
        ensures
            events@ == runtime_registrations(resources.disk.file_engine, PROCESS_QUEUE),
    {
        crate::events::runtime_events(resources.disk.file_engine, PROCESS_QUEUE)
    }

    /// The event that a thread watches all the time.
    pub fn control_registration() -> (event: Registration)
        ensures
            event == control_event(),
    {
        watch_readable(EventSource::Control, PROCESS_CONTROL)
    }

    /// What the thread does about an event, by the number under which it is
    /// reported. Without a queue that it serves, a thread only listens to
    /// messages.
    pub fn process(&self, source: u32, event_set: u32) -> (handled: Option<EventSource>)
        ensures
            handled == self.state.dispatch(source, event_set),
    {
        if !is_supported(event_set) {
            return None;
        }
        if let WorkerState::Running(_) = &self.state {
            match source {
                PROCESS_QUEUE => Some(EventSource::Queue),
                PROCESS_RATE_LIMITER => Some(EventSource::RateLimiter),
                PROCESS_ASYNC_COMPLETION => Some(EventSource::AsyncCompletion),
                PROCESS_CONTROL => Some(EventSource::Control),
                _ => None,
            }
        } else {
            match source {
                PROCESS_CONTROL => Some(EventSource::Control),
                _ => None,
            }
        }
    }

    /// Counts a control event that could not be read, if there is a queue to
    /// count it for.
    pub fn control_event_failed(&self, metrics: &mut BlockDeviceMetrics)
        ensures
            *final(metrics) == if self.state.worker() is Some {
                BlockDeviceMetrics {
                    event_fails: crate::metrics::counted(old(metrics).event_fails, 1),
                    ..*old(metrics)
                }
            } else {
                *old(metrics)
            },
    {
        if self.has_worker() {
            count(&mut metrics.event_fails, 1);
        }
    }
}

} // verus!
