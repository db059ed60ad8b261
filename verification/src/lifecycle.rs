//! How a block device comes to serve its queues and how it stops.

use vstd::prelude::*;

use crate::device::handles_in_order;
use crate::device::{ActiveBlock, BlockState, InlineActive, ThreadedActive, VirtioBlock};
use crate::device_ops::{ask_each, first_failure, first_queue_failure, flush_mode_of};
use crate::device_ops::{message_to_each, work_on_each, work_on_first};
use crate::device_ops::{DeviceEffect, WorkerMessage};
use crate::config::CacheType;
use crate::error::{ActivateError, QueueError, VirtioBlockError};
use crate::features::{has_bit, has_feature};
use crate::handle::WorkerHandle;
use crate::metrics::{count, BlockDeviceMetrics};
use crate::resources::{BlockResources, QueueConfig};
use crate::threaded::{ControlMsg, WorkerState};
use crate::virtio::VIRTIO_RING_F_EVENT_IDX;
use crate::worker::{flush_effect, flush_work};
use crate::worker::{BlockWorker, FlushMode, WorkerEffect};

verus! {

/// The work of an activation.
#[derive(Debug)]
pub struct Activation<T, A> {
    /// Turn notification suppression on for each queue, before it is served.
    pub suppress_notifications: bool,
    /// Send each queue to its thread.
    pub starts: Vec<(WorkerHandle, BlockWorker<T, A>)>,
    /// Signal the activation event, and hand the outcome to
    /// `activation_signalled`.
    pub signal: bool,
}

/// The work by which a device is torn down.
#[derive(Debug)]
pub struct Teardown<T, A> {
    /// The work, in order.
    pub effects: Vec<DeviceEffect>,
    /// Who served the only queue of the device, on which the work is done.
    pub worker: Option<BlockWorker<T, A>>,
}

/// Whether each worker thread gave its queue back.
pub open spec fn all_returned<T>(returned: Seq<Option<BlockResources<T>>>) -> bool {
    forall|i: int| 0 <= i < returned.len() ==> (#[trigger] returned[i]) is Some
}

/// The queues that the worker threads gave back.
pub open spec fn returned_queues<T>(
    returned: Seq<Option<BlockResources<T>>>,
) -> Seq<BlockResources<T>> {
    returned.map_values(|resources: Option<BlockResources<T>>| resources->Some_0)
}

/// Resources that are ready to be activated again.
pub open spec fn all_reset<T>(resources: Seq<BlockResources<T>>) -> Seq<BlockResources<T>> {
    resources.map_values(|r: BlockResources<T>| r.reset())
}

impl<T, A> VirtioBlock<T, A> {
    /// Whether each worker thread gives back the queue that it served.
    pub open spec fn fits_workers(self, returned: Seq<Option<BlockResources<T>>>) -> bool {
        self.is_served_by_workers() ==> {
            &&& returned.len() == self.num_queues
            &&& forall|i: int|
                0 <= i < returned.len() && (#[trigger] returned[i]) is Some
                    ==> returned[i]->Some_0.queue_index == i
        }
    }

    /// The state of the device after it was deactivated. It stays active if a
    /// worker thread did not give its queue back; queues that other threads gave
    /// back are then lost.
    pub open spec fn deactivated(self, returned: Seq<Option<BlockResources<T>>>, after: Self) -> bool {
        &&& after == (VirtioBlock { state: after.state, ..self })
        &&& match self.state {
            BlockState::Active(ActiveBlock::Threaded(active)) => if all_returned(returned) {
                &&& after.state is Configuring
                &&& after.data_path() == returned_queues(returned)
                &&& after.handles() == self.handles()
            } else {
                after.state == self.state
            },
            BlockState::Active(ActiveBlock::Inline(active)) => {
                &&& after.state is Configuring
                &&& after.data_path() == all_reset(self.data_path())
                &&& after.handles() == Seq::<WorkerHandle>::empty()
            },
            _ => after.state == self.state,
        }
    }

    /// Hands the data path to who serves it, given the outcomes of laying the
    /// queues over guest memory, up to the first that failed. A queue that does not fit leaves the device
    /// without a data path.
    pub fn activate(
        &mut self,
        initialized: Vec<Result<(), QueueError>>,
        active_states: Vec<A>,
        queue_cfg: Vec<QueueConfig>,
    ) -> (result: Result<Activation<T, A>, ActivateError>)
        requires
            old(self).wf(),
            !(old(self).state is Active),
            old(self).state is Configuring && first_queue_failure(
                initialized@,
                initialized@.len() as int,
            ) is None ==> {
                &&& initialized@.len() == old(self).num_queues
                &&& active_states@.len() == old(self).num_queues
                &&& queue_cfg@.len() == old(self).num_queues
                &&& old(self).threaded ==> old(self).handles().len() == old(self).num_queues
            },
        ensures
            final(self).wf(),
            *final(self) == (VirtioBlock { state: final(self).state, ..*old(self) }),
            match old(self).state {
                BlockState::Configuring(resources, handles) => match first_queue_failure(
                    initialized@,
                    initialized@.len() as int,
                ) {
                    Some(error) => {
                        &&& result == Err::<Activation<T, A>, ActivateError>(
                            ActivateError::QueueMemoryError(error),
                        )
                        &&& final(self).state is Placeholder
                    },
                    None => {
                        &&& result is Ok
                        &&& final(self).state is Active
                        &&& result->Ok_0.signal
                        &&& result->Ok_0.suppress_notifications == has_bit(
                            old(self).acked_features,
                            VIRTIO_RING_F_EVENT_IDX,
                        )
                        &&& final(self).serves(
                            resources@,
                            active_states@,
                            handles@,
                            queue_cfg@,
                            result->Ok_0.starts@,
                        )
                    },
                },
                _ => {
                    &&& result is Ok
                    &&& !result->Ok_0.signal
                    &&& !result->Ok_0.suppress_notifications
                    &&& result->Ok_0.starts@.len() == 0
                    &&& final(self).state == old(self).state
                },
            },
    {
        let (resources, handles) = match self.take_state() {
            BlockState::Configuring(resources, handles) => (resources, handles),
            other => {
                self.state = other;
                return Ok(
                    Activation { suppress_notifications: false, starts: Vec::new(), signal: false },
                );
            },
        };
        if let Err(error) = first_failure(&initialized) {
            return Err(ActivateError::QueueMemoryError(error));
        }
        let suppress_notifications = has_feature(self.acked_features, VIRTIO_RING_F_EVENT_IDX);
        if self.threaded {
            let starts = pair_workers(&handles, resources, active_states);
            self.state = BlockState::Active(
                ActiveBlock::Threaded(ThreadedActive { worker_handles: handles, queue_cfg }),
            );
            Ok(Activation { suppress_notifications, starts, signal: true })
        } else {
            let mut resources = resources;
            let mut active_states = active_states;
            let worker = BlockWorker {
                resources: resources.remove(0),
                active_state: active_states.remove(0),
            };
            self.state = BlockState::Active(
                ActiveBlock::Inline(InlineActive { worker, queue_cfg }),
            );
            Ok(Activation { suppress_notifications, starts: Vec::new(), signal: true })
        }
    }

    /// Whether an active device serves the given queues: itself, or by the
    /// threads that are started.
    pub open spec fn serves(
        self,
        resources: Seq<BlockResources<T>>,
        active_states: Seq<A>,
        handles: Seq<WorkerHandle>,
        queue_cfg: Seq<QueueConfig>,
        starts: Seq<(WorkerHandle, BlockWorker<T, A>)>,
    ) -> bool {
        match self.state {
            BlockState::Active(ActiveBlock::Threaded(active)) => {
                &&& self.threaded
                &&& active.worker_handles@ == handles
                &&& active.queue_cfg@ == queue_cfg
                &&& starts.len() == resources.len()
                &&& forall|i: int|
                    0 <= i < starts.len() ==> #[trigger] starts[i] == (
                        handles[i],
                        BlockWorker { resources: resources[i], active_state: active_states[i] },
                    )
            },
            BlockState::Active(ActiveBlock::Inline(active)) => {
                &&& !self.threaded
                &&& active.worker == (BlockWorker {
                    resources: resources[0],
                    active_state: active_states[0],
                })
                &&& active.queue_cfg@ == queue_cfg
                &&& starts.len() == 0
            },
            _ => false,
        }
    }

    /// Whether an activation succeeded, given whether its event was signalled.
    pub fn activation_signalled(&self, signalled: bool, metrics: &mut BlockDeviceMetrics) -> (result:
        Result<(), ActivateError>)
        ensures
            result == if signalled {
                Ok(())
            } else {
                Err(ActivateError::EventFd)
            },
            *final(metrics) == if signalled {
                *old(metrics)
            } else {
                BlockDeviceMetrics {
                    activate_fails: crate::metrics::counted(old(metrics).activate_fails, 1),
                    ..*old(metrics)
                }
            },
    {
        if signalled {
            Ok(())
        } else {
            count(&mut metrics.activate_fails, 1);
            Err(ActivateError::EventFd)
        }
    }

    /// The work that comes before a deactivation or a reset: worker threads are
    /// asked for their queues. What they give back goes to `deactivate` or
    /// `reset`.
    pub fn deactivate_work(&self) -> (effects: Vec<DeviceEffect>)
        ensures
            effects@ == match self.state {
                BlockState::Active(ActiveBlock::Threaded(active)) => ask_each(
                    active.worker_handles@,
                    WorkerMessage::Reset,
                ),
                _ => Seq::empty(),
            },
    {
        match &self.state {
            BlockState::Active(ActiveBlock::Threaded(active)) => message_to_each(
                &active.worker_handles,
                WorkerMessage::Reset,
            ),
            _ => Vec::new(),
        }
    }

    /// Takes the data path back from who serves it, given what each worker
    /// thread gave back. A device that served its queue itself has work left to
    /// do on it.
    pub fn deactivate(&mut self, returned: Vec<Option<BlockResources<T>>>) -> (effects: Vec<
        DeviceEffect,
    >)
        requires
            old(self).wf(),
            old(self).fits_workers(returned@),
        ensures
            final(self).wf(),
            old(self).deactivated(returned@, *final(self)),
            effects@ == if old(self).is_inline() {
                work_on_first(
                    seq![WorkerEffect::Drain { discard: true }, WorkerEffect::ResetQueue],
                )
            } else {
                Seq::empty()
            },
    {
        let mut effects: Vec<DeviceEffect> = Vec::new();
        match self.take_state() {
            BlockState::Active(ActiveBlock::Threaded(active)) => {
                match collect_returned(returned) {
                    Some(resources) => {
                        self.state = BlockState::Configuring(resources, active.worker_handles);
                    },
                    None => {
                        self.state = BlockState::Active(ActiveBlock::Threaded(active));
                    },
                }
            },
            BlockState::Active(ActiveBlock::Inline(active)) => {
                effects.push(
                    DeviceEffect::Work {
                        queue_index: 0,
                        effect: WorkerEffect::Drain { discard: true },
                    },
                );
                let mut resources = active.worker.resources;
                resources.reset_for_reactivation();
                effects.push(
                    DeviceEffect::Work { queue_index: 0, effect: WorkerEffect::ResetQueue },
                );
                let mut queues: Vec<BlockResources<T>> = Vec::new();
                queues.push(resources);
                self.state = BlockState::Configuring(queues, Vec::new());
                assert(self.data_path() =~= all_reset(old(self).data_path()));
                assert(effects@ =~= work_on_first(
                    seq![WorkerEffect::Drain { discard: true }, WorkerEffect::ResetQueue],
                ));
            },
            other => {
                self.state = other;
            },
        }
        effects
    }

    /// What a reset does to the device, and whether it succeeds: it does unless
    /// a worker thread keeps its queue, or there is no data path to reset. A
    /// device that stays active keeps what the driver took of it.
    pub open spec fn is_reset(
        self,
        returned: Seq<Option<BlockResources<T>>>,
        after: Self,
        done: bool,
    ) -> bool {
        if self.is_served_by_workers() && !all_returned(returned) {
            &&& !done
            &&& after == self
        } else {
            &&& done == !(self.state is Placeholder)
            &&& after == (VirtioBlock { state: after.state, acked_features: 0, ..self })
            &&& self.state is Placeholder ==> after.state is Placeholder
            &&& !(self.state is Placeholder) ==> {
                &&& after.state is Configuring
                &&& after.data_path() == all_reset(
                    if self.is_served_by_workers() {
                        returned_queues(returned)
                    } else {
                        self.data_path()
                    },
                )
                &&& after.handles() == self.handles()
            }
        }
    }

    /// Brings the device back to where it was before the driver touched it, given
    /// what each worker thread gave back. Returns whether it succeeded, and the
    /// work to do.
    pub fn reset(&mut self, returned: Vec<Option<BlockResources<T>>>) -> (outcome: (
        bool,
        Vec<DeviceEffect>,
    ))
        requires
            old(self).wf(),
            old(self).fits_workers(returned@),
        ensures
            final(self).wf(),
            old(self).is_reset(returned@, *final(self), outcome.0),
            outcome.1@ == (if old(self).is_inline() {
                work_on_first(
                    seq![WorkerEffect::Drain { discard: true }, WorkerEffect::ResetQueue],
                )
            } else {
                Seq::empty()
            }) + (if outcome.0 {
                work_on_each(old(self).num_queues as nat, WorkerEffect::ResetQueue)
            } else {
                Seq::empty()
            }),
    {
        let mut effects = self.deactivate(returned);
        if self.is_activated() {
            return (false, effects);
        }
        self.acked_features = 0;
        match self.take_state() {
            BlockState::Configuring(resources, handles) => {
                let resources = reset_all(resources);
                self.state = BlockState::Configuring(resources, handles);
                let ghost before = effects@;
                let mut index: u16 = 0;
                while index < self.num_queues
                    invariant
                        index <= self.num_queues,
                        effects@ == before + work_on_each(index as nat, WorkerEffect::ResetQueue),
                    decreases self.num_queues - index,
                {
                    effects.push(
                        DeviceEffect::Work {
                            queue_index: index,
                            effect: WorkerEffect::ResetQueue,
                        },
                    );
                    index = index + 1;
                    assert(effects@ =~= before + work_on_each(
                        index as nat,
                        WorkerEffect::ResetQueue,
                    ));
                }
                proof {
                    lemma_reset_twice(old(self).data_path());
                }
                (true, effects)
            },
            other => {
                self.state = other;
                (false, effects)
            },
        }
    }

    /// Whether worker threads have to be started: the device wants them, holds
    /// its data path and has none.
    pub fn needs_workers(&self) -> (needed: bool)
        ensures
            needed == (self.threaded && self.state is Configuring && self.handles().len() == 0),
    {
        match &self.state {
            BlockState::Configuring(_, handles) => self.threaded && handles.len() == 0,
            _ => false,
        }
    }

    /// Takes note of the worker threads that were started, given whether the
    /// thread of each queue could be, up to the first that could not. Either each queue has a thread, or none.
    pub fn spawn_worker(&mut self, spawned: Vec<Result<(), VirtioBlockError>>) -> (result: Result<
        (),
        VirtioBlockError,
    >)
        requires
            old(self).wf(),
            old(self).threaded && old(self).state is Configuring && old(self).handles().len() == 0
                && first_spawn_error(spawned@, spawned@.len() as int) is None ==> spawned@.len()
                == old(self).num_queues,
        ensures
            final(self).wf(),
            *final(self) == (VirtioBlock { state: final(self).state, ..*old(self) }),
            if old(self).threaded && old(self).state is Configuring && old(self).handles().len()
                == 0 {
                &&& final(self).state is Configuring
                &&& final(self).data_path() == old(self).data_path()
                &&& match first_spawn_error(spawned@, spawned@.len() as int) {
                    Some(error) => {
                        &&& result == Err::<(), VirtioBlockError>(error)
                        &&& final(self).handles().len() == 0
                    },
                    None => {
                        &&& result is Ok
                        &&& final(self).handles().len() == old(self).num_queues
                    },
                }
            } else {
                &&& result is Ok
                &&& final(self).state == old(self).state
            },
    {
        if !self.needs_workers() {
            return Ok(());
        }
        if let Some(error) = find_spawn_error(spawned) {
            return Err(error);
        }
        match self.take_state() {
            BlockState::Configuring(resources, _) => {
                let mut handles: Vec<WorkerHandle> = Vec::new();
                let mut index: u16 = 0;
                while index < self.num_queues
                    invariant
                        index <= self.num_queues,
                        handles@.len() == index,
                        handles_in_order(handles@),
                    decreases self.num_queues - index,
                {
                    handles.push(WorkerHandle { queue_index: index });
                    index = index + 1;
                }
                self.state = BlockState::Configuring(resources, handles);
            },
            other => {
                self.state = other;
            },
        }
        Ok(())
    }

    /// Takes the data path away for good. Who served it is wound up: what was
    /// submitted is waited for, and the backing file is flushed where the cache
    /// is written back. A thread that has no queue has nothing to flush.
    pub fn teardown(&mut self) -> (teardown: Teardown<T, A>)
        ensures
            final(self).state is Placeholder,
            *final(self) == (VirtioBlock { state: final(self).state, ..*old(self) }),
            match old(self).state {
                BlockState::Active(ActiveBlock::Threaded(active)) => {
                    &&& teardown.effects@ == ask_each(
                        active.worker_handles@,
                        WorkerMessage::Finish(flush_mode_of(old(self).cache_type)),
                    )
                    &&& teardown.worker is None
                },
                BlockState::Active(ActiveBlock::Inline(active)) => {
                    &&& teardown.effects@ == work_on_first(
                        seq![flush_work(flush_mode_of(old(self).cache_type))],
                    )
                    &&& teardown.worker == Some(active.worker)
                },
                BlockState::Configuring(resources, handles) => {
                    &&& teardown.effects@ == ask_each(
                        handles@,
                        WorkerMessage::Finish(FlushMode::Drain),
                    )
                    &&& teardown.worker is None
                },
                BlockState::Placeholder => {
                    &&& teardown.effects@.len() == 0
                    &&& teardown.worker is None
                },
            },
    {
        let flush_mode = match self.cache_type {
            CacheType::Unsafe => FlushMode::Drain,
            CacheType::Writeback => FlushMode::DrainAndFlush,
        };
        match self.take_state() {
            BlockState::Active(ActiveBlock::Threaded(active)) => Teardown {
                effects: message_to_each(
                    &active.worker_handles,
                    WorkerMessage::Finish(flush_mode),
                ),
                worker: None,
            },
            BlockState::Active(ActiveBlock::Inline(active)) => {
                let mut effects: Vec<DeviceEffect> = Vec::new();
                effects.push(
                    DeviceEffect::Work { queue_index: 0, effect: flush_effect(flush_mode) },
                );
                assert(effects@ =~= work_on_first(seq![flush_work(flush_mode)]));
                Teardown { effects, worker: Some(active.worker) }
            },
            BlockState::Configuring(_, handles) => Teardown {
                effects: message_to_each(&handles, WorkerMessage::Finish(FlushMode::Drain)),
                worker: None,
            },
            BlockState::Placeholder => Teardown { effects: Vec::new(), worker: None },
        }
    }
}

/// Resetting resources that were reset changes nothing.
proof fn lemma_reset_twice<T>(resources: Seq<BlockResources<T>>)
    ensures
        all_reset(all_reset(resources)) == all_reset(resources),
{
    assert(all_reset(all_reset(resources)) =~= all_reset(resources));
}

/// Makes all resources ready to be activated again.
fn reset_all<T>(resources: Vec<BlockResources<T>>) -> (queues: Vec<BlockResources<T>>)
    ensures
        queues@ == all_reset(resources@),
{
    let mut queues = resources;
    let mut i: usize = 0;
    while i < queues.len()
        invariant
            i <= queues@.len() == resources@.len(),
            forall|j: int| 0 <= j < i ==> #[trigger] queues@[j] == resources@[j].reset(),
            forall|j: int| i <= j < queues@.len() ==> #[trigger] queues@[j] == resources@[j],
        decreases queues@.len() - i,
    {
        queues[i].reset_for_reactivation();
        i = i + 1;
    }
    assert(queues@ =~= all_reset(resources@));
    queues
}

/// The first error among the first `n` threads.
pub open spec fn first_spawn_error(
    spawned: Seq<Result<(), VirtioBlockError>>,
    n: int,
) -> Option<VirtioBlockError>
    decreases n,
{
    if n <= 0 {
        None
    } else {
        match first_spawn_error(spawned, n - 1) {
            Some(error) => Some(error),
            None => match spawned[n - 1] {
                Err(error) => Some(error),
                Ok(_) => None,
            },
        }
    }
}

/// The first error among the threads, if there is one.
fn find_spawn_error(spawned: Vec<Result<(), VirtioBlockError>>) -> (error: Option<VirtioBlockError>)
    ensures
        error == first_spawn_error(spawned@, spawned@.len() as int),
{
    let mut error: Option<VirtioBlockError> = None;
    let mut waiting = spawned;
    let ghost mut taken: int = 0;
    while waiting.len() > 0
        invariant
            0 <= taken <= spawned@.len(),
            waiting@ == spawned@.skip(taken),
            error == first_spawn_error(spawned@, taken),
        decreases waiting@.len(),
    {
        let outcome = waiting.remove(0);
        if error.is_none() {
            if let Err(reason) = outcome {
                error = Some(reason);
            }
        }
        proof {
            taken = taken + 1;
            assert(waiting@ =~= spawned@.skip(taken));
        }
    }
    error
}

/// Pairs each queue with its thread and what it gets with the activation.
fn pair_workers<T, A>(
    handles: &Vec<WorkerHandle>,
    resources: Vec<BlockResources<T>>,
    active_states: Vec<A>,
) -> (starts: Vec<(WorkerHandle, BlockWorker<T, A>)>)
    requires
        handles@.len() == resources@.len() == active_states@.len(),
    ensures
        starts@.len() == resources@.len(),
        forall|i: int|
            0 <= i < starts@.len() ==> #[trigger] starts@[i] == (
                handles@[i],
                BlockWorker { resources: resources@[i], active_state: active_states@[i] },
            ),
{
    let mut starts: Vec<(WorkerHandle, BlockWorker<T, A>)> = Vec::new();
    let mut queues = resources;
    let mut states = active_states;
    let mut i: usize = 0;
    while i < handles.len()
        invariant
            i <= handles@.len() == resources@.len() == active_states@.len(),
            queues@ == resources@.skip(i as int),
            states@ == active_states@.skip(i as int),
            starts@.len() == i,
            forall|j: int|
                0 <= j < i ==> #[trigger] starts@[j] == (
                    handles@[j],
                    BlockWorker { resources: resources@[j], active_state: active_states@[j] },
                ),
        decreases handles@.len() - i,
    {
        let worker = BlockWorker { resources: queues.remove(0), active_state: states.remove(0) };
        starts.push((handles[i], worker));
        i = i + 1;
        assert(queues@ =~= resources@.skip(i as int));
        assert(states@ =~= active_states@.skip(i as int));
    }
    starts
}

/// The queues that the worker threads gave back, if each of them did.
fn collect_returned<T>(returned: Vec<Option<BlockResources<T>>>) -> (resources: Option<
    Vec<BlockResources<T>>,
>)
    ensures
        resources is Some == all_returned(returned@),
        resources matches Some(queues) ==> queues@ == returned_queues(returned@),
{
    let mut queues: Vec<BlockResources<T>> = Vec::new();
    let mut waiting = returned;
    while waiting.len() > 0
        invariant
            queues@.len() + waiting@.len() == returned@.len(),
            waiting@ == returned@.skip(queues@.len() as int),
            forall|i: int| 0 <= i < queues@.len() ==> (#[trigger] returned@[i]) is Some,
            forall|i: int|
                0 <= i < queues@.len() ==> #[trigger] queues@[i] == returned@[i]->Some_0,
        decreases waiting@.len(),
    {
        assert(waiting@[0] == returned@[queues@.len() as int]);
        match waiting.remove(0) {
            Some(resources) => {
                queues.push(resources);
                assert(waiting@ =~= returned@.skip(queues@.len() as int));
            },
            None => return None,
        }
    }
    assert(queues@ =~= returned_queues(returned@));
    Some(queues)
}

/// What each worker thread gives back that is started with a queue and then
/// reset.
pub open spec fn given_back<T, A>(
    starts: Seq<(WorkerHandle, BlockWorker<T, A>)>,
) -> Seq<Option<BlockResources<T>>> {
    Seq::new(
        starts.len(),
        |i: int|
            match WorkerState::Parked.after(ControlMsg::Start(starts[i].1)).state.after(
                ControlMsg::Reset,
            ).released {
                Some(worker) => Some(worker.resources),
                None => None,
            },
    )
}

/// Deactivation undoes activation: whether the device or threads served the
/// queues, the device gets its data path back, ready to be activated again, and
/// keeps its threads.
pub proof fn law_deactivation_undoes_activation<T, A>(
    before: VirtioBlock<T, A>,
    active: VirtioBlock<T, A>,
    active_states: Seq<A>,
    queue_cfg: Seq<QueueConfig>,
    starts: Seq<(WorkerHandle, BlockWorker<T, A>)>,
    after: VirtioBlock<T, A>,
)
    requires
        before.wf(),
        before.state is Configuring,
        active == (VirtioBlock { state: active.state, ..before }),
        active.serves(before.data_path(), active_states, before.handles(), queue_cfg, starts),
        active.deactivated(given_back(starts), after),
    ensures
        after == (VirtioBlock { state: after.state, ..before }),
        after.state is Configuring,
        after.data_path() == all_reset(before.data_path()),
        before.threaded ==> after.handles() == before.handles(),
{
    if active.is_served_by_workers() {
        assert(returned_queues(given_back(starts)) =~= all_reset(before.data_path()));
    } else {
        assert(all_reset(active.data_path()) =~= all_reset(before.data_path()));
    }
}

/// A device that was reset holds its data path, took no features, waits for no
/// engine, and is otherwise the device that it was. Threads that it had it still
/// has, so that it can be activated again.
pub proof fn law_reset_readies_the_device<T, A>(
    before: VirtioBlock<T, A>,
    returned: Seq<Option<BlockResources<T>>>,
    after: VirtioBlock<T, A>,
    i: int,
)
    requires
        before.wf(),
        before.fits_workers(returned),
        before.is_reset(returned, after, true),
        0 <= i < before.num_queues,
    ensures
        after.same_device(before),
        after.acked_features == 0,
        after.state is Configuring,
        after.data_path().len() == before.num_queues,
        !after.data_path()[i].is_io_engine_throttled,
        after.handles() == before.handles(),
{
}

/// A device without a data path cannot be reset, and a device whose thread keeps
/// its queue cannot either. Every other device can.
pub proof fn law_when_reset_fails<T, A>(
    before: VirtioBlock<T, A>,
    returned: Seq<Option<BlockResources<T>>>,
    after: VirtioBlock<T, A>,
    done: bool,
)
    requires
        before.is_reset(returned, after, done),
    ensures
        done == !(before.state is Placeholder || (before.is_served_by_workers() && !all_returned(
            returned,
        ))),
{
}

/// The queues of a device are all given back exactly if no thread kept its own.
/// They are in the order of the threads.
pub proof fn law_returned_queues_are_in_order<T>(returned: Seq<Option<BlockResources<T>>>, i: int)
    ensures
        all_returned(returned) <==> !returned.contains(None),
        returned_queues(returned).len() == returned.len(),
        0 <= i < returned.len() ==> (returned[i] matches Some(resources) ==> returned_queues(
            returned,
        )[i] == resources),
{
    if returned.contains(None) {
        let j = choose|j: int| 0 <= j < returned.len() && returned[j] == None::<BlockResources<T>>;
        assert(!(returned[j] is Some));
    }
    if !all_returned(returned) {
        let j = choose|j: int| 0 <= j < returned.len() && !((#[trigger] returned[j]) is Some);
        assert(returned[j] == None::<BlockResources<T>>);
    }
}

/// Resources that are made ready again keep what the host has for them, their
/// number and their disk.
pub proof fn law_reset_keeps_the_queues<T>(resources: Seq<BlockResources<T>>, i: int)
    requires
        0 <= i < resources.len(),
    ensures
        all_reset(resources).len() == resources.len(),
        all_reset(resources)[i].io == resources[i].io,
        all_reset(resources)[i].queue_index == resources[i].queue_index,
        all_reset(resources)[i].disk == resources[i].disk,
        !all_reset(resources)[i].is_io_engine_throttled,
{
}

/// Activation hands each queue over as it is: to its own thread where the device
/// has threads, and else to the device, which starts none.
pub proof fn law_activation_hands_the_queues_over<T, A>(
    active: VirtioBlock<T, A>,
    resources: Seq<BlockResources<T>>,
    active_states: Seq<A>,
    handles: Seq<WorkerHandle>,
    queue_cfg: Seq<QueueConfig>,
    starts: Seq<(WorkerHandle, BlockWorker<T, A>)>,
    i: int,
)
    requires
        active.serves(resources, active_states, handles, queue_cfg, starts),
    ensures
        active.state is Active,
        active.threaded <==> active.is_served_by_workers(),
        active.threaded ==> starts.len() == resources.len() && active.handles() == handles,
        active.threaded && 0 <= i < resources.len() ==> {
            &&& starts[i].0 == handles[i]
            &&& starts[i].1.resources == resources[i]
            &&& starts[i].1.active_state == active_states[i]
        },
        !active.threaded ==> {
            &&& starts.len() == 0
            &&& active.data_path() == seq![resources[0]]
            &&& active.state->Active_0->Inline_0.worker.active_state == active_states[0]
        },
        active.state matches BlockState::Active(ActiveBlock::Inline(served)) ==> served.queue_cfg@
            == queue_cfg,
        active.state matches BlockState::Active(ActiveBlock::Threaded(served))
            ==> served.queue_cfg@ == queue_cfg,
{
}

/// Deactivation changes nothing but where the data path is. A device whose
/// threads all give their queues back holds just those; one whose thread keeps its
/// queue stays active; one that served its queue itself holds it again; and one
/// that was not active stays as it is.
pub proof fn law_what_deactivation_changes<T, A>(
    before: VirtioBlock<T, A>,
    returned: Seq<Option<BlockResources<T>>>,
    after: VirtioBlock<T, A>,
    i: int,
)
    requires
        before.deactivated(returned, after),
    ensures
        after == (VirtioBlock { state: after.state, ..before }),
        !(before.state is Active) ==> after == before,
        before.is_served_by_workers() && returned.contains(None) ==> after == before,
        before.is_served_by_workers() && !returned.contains(None) ==> {
            &&& after.state is Configuring
            &&& after.handles() == before.handles()
            &&& after.data_path().len() == returned.len()
            &&& 0 <= i < returned.len() ==> Some(after.data_path()[i]) == returned[i]
        },
        before.is_inline() ==> {
            let (served, held) = (before.data_path()[0], after.data_path()[0]);
            &&& after.state is Configuring
            &&& after.handles().len() == 0
            &&& after.data_path().len() == 1
            &&& held.io == served.io
            &&& held.disk == served.disk
            &&& held.queue_index == served.queue_index
            &&& !held.is_io_engine_throttled
        },
{
    law_returned_queues_are_in_order(returned, i);
}

/// A reset device holds the queues that it had, or that its threads gave back, as
/// they are but for an engine that was full.
pub proof fn law_reset_keeps_the_data_path<T, A>(
    before: VirtioBlock<T, A>,
    returned: Seq<Option<BlockResources<T>>>,
    after: VirtioBlock<T, A>,
    i: int,
)
    requires
        before.is_reset(returned, after, true),
    ensures
        after == (VirtioBlock { state: after.state, acked_features: 0, ..before }),
        before.is_served_by_workers() && 0 <= i < returned.len() ==> {
            &&& returned[i] is Some
            &&& after.data_path()[i].io == returned[i]->Some_0.io
            &&& after.data_path()[i].disk == returned[i]->Some_0.disk
            &&& after.data_path()[i].queue_index == returned[i]->Some_0.queue_index
        },
        !before.is_served_by_workers() && 0 <= i < before.data_path().len() ==> {
            &&& after.data_path()[i].io == before.data_path()[i].io
            &&& after.data_path()[i].disk == before.data_path()[i].disk
            &&& after.data_path()[i].queue_index == before.data_path()[i].queue_index
        },
{
    law_returned_queues_are_in_order(returned, i);
}

/// A reset that fails leaves an active device as it was. A device without a data
/// path only forgets what the driver took.
pub proof fn law_failed_reset_changes_little<T, A>(
    before: VirtioBlock<T, A>,
    returned: Seq<Option<BlockResources<T>>>,
    after: VirtioBlock<T, A>,
)
    requires
        before.is_reset(returned, after, false),
    ensures
        before.state is Active ==> after == before,
        !(before.state is Active) ==> before.state is Placeholder && after == (VirtioBlock {
            acked_features: 0,
            ..before
        }),
{
}

/// The error of several threads is that of the first thread that could not be
/// started. There is none exactly if all could.
pub proof fn law_first_error_of_threads(spawned: Seq<Result<(), VirtioBlockError>>, i: int)
    ensures
        first_spawn_error(spawned, spawned.len() as int) is None <==> forall|j: int|
            0 <= j < spawned.len() ==> (#[trigger] spawned[j]) is Ok,
        0 <= i < spawned.len() && spawned[i] is Err && (forall|j: int|
            0 <= j < i ==> (#[trigger] spawned[j]) is Ok) ==> first_spawn_error(
            spawned,
            spawned.len() as int,
        ) == Some(spawned[i]->Err_0),
{
    lemma_spawn_errors(spawned, spawned.len() as int);
    if 0 <= i < spawned.len() && spawned[i] is Err && (forall|j: int|
        0 <= j < i ==> (#[trigger] spawned[j]) is Ok) {
        lemma_spawn_errors(spawned, i);
        lemma_spawn_error_stays(spawned, i + 1, spawned.len() as int);
    }
}

proof fn lemma_spawn_errors(spawned: Seq<Result<(), VirtioBlockError>>, n: int)
    requires
        0 <= n <= spawned.len(),
    ensures
        first_spawn_error(spawned, n) is None <==> forall|j: int|
            0 <= j < n ==> (#[trigger] spawned[j]) is Ok,
    decreases n,
{
    if n > 0 {
        lemma_spawn_errors(spawned, n - 1);
        if first_spawn_error(spawned, n - 1) is Some {
            let j = choose|j: int| 0 <= j < n - 1 && !((#[trigger] spawned[j]) is Ok);
            assert(0 <= j < n && !(spawned[j] is Ok));
        } else {
            assert(first_spawn_error(spawned, n) is Some == spawned[n - 1] is Err);
        }
    }
}

proof fn lemma_spawn_error_stays(spawned: Seq<Result<(), VirtioBlockError>>, n: int, m: int)
    requires
        n <= m,
    ensures
        first_spawn_error(spawned, n) is Some ==> first_spawn_error(spawned, m)
            == first_spawn_error(spawned, n),
    decreases m - n,
{
    if n < m {
        lemma_spawn_error_stays(spawned, n, m - 1);
    }
}

} // verus!
