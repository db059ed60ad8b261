//! What the transport, the driver and the user ask of a block device.

use vstd::prelude::*;

use crate::config::{BucketUpdate, CacheType, FileEngineType};
use crate::config::{RateLimiterConfig, VirtioBlockConfig};
use crate::config_space::{le_bytes, ConfigSpace, CAPACITY_SIZE};
use crate::device::image_error;
use crate::device::{ActiveBlock, BlockState, VirtioBlock};
use crate::disk::{DiskProperties, ImageReport, OpenAccess};
use crate::error::{QueueError, VirtioBlockError};
use crate::handle::WorkerHandle;
use crate::metrics::{count, BlockDeviceMetrics};
use crate::resources::BlockResources;
use crate::threaded::ControlMsg;
use crate::virtio::SECTOR_SIZE;
use crate::worker::save_work;
use crate::worker::{FlushMode, WorkerEffect};

verus! {

/// A message from the device to a worker thread.
#[derive(Clone, Copy, Debug, PartialEq, Eq, Structural)]
pub enum WorkerMessage {
    /// Go on, and serve the queue now.
    Kick,
    /// Stop serving the queue, and keep it.
    Pause,
    /// Change the rate limiter: first bandwidth, then operations.
    UpdateRateLimiter(BucketUpdate, BucketUpdate),
    /// Give the state of the queue.
    GetSavedState,
    /// Make the pages of the queue count as dirty.
    MarkQMemDirty,
    /// Give the queue back.
    Reset,
    /// End.
    Finish(FlushMode),
}

/// Work of the host for the device.
#[derive(Clone, Debug, PartialEq, Eq)]
pub enum DeviceEffect {
    /// Work on a queue whose data path the device holds.
    Work {
        /// Number of the queue.
        queue_index: u16,
        /// The work.
        effect: WorkerEffect,
    },
    /// Send a message to a worker thread, and wait for its answer if there is
    /// one.
    Ask {
        /// The thread.
        worker: WorkerHandle,
        /// The message.
        message: WorkerMessage,
    },
    /// Ask a worker thread for another backing file, and wait for its answer.
    AskForDisk {
        /// The thread.
        worker: WorkerHandle,
        /// Path of the file.
        path: String,
        /// Whether the file is opened for reading only.
        read_only: bool,
    },
    /// Raise the queue events, as if the driver had notified the device.
    NotifyQueueEvents,
}

impl WorkerMessage {
    /// The message as it is sent to the thread.
    pub open spec fn sent_as<T, A>(self) -> ControlMsg<T, A> {
        match self {
            WorkerMessage::Kick => ControlMsg::Kick,
            WorkerMessage::Pause => ControlMsg::Pause,
            WorkerMessage::UpdateRateLimiter(bytes, ops) => ControlMsg::UpdateRateLimiter(
                bytes,
                ops,
            ),
            WorkerMessage::GetSavedState => ControlMsg::GetSavedState,
            WorkerMessage::MarkQMemDirty => ControlMsg::MarkQMemDirty,
            WorkerMessage::Reset => ControlMsg::Reset,
            WorkerMessage::Finish(mode) => ControlMsg::Finish(mode),
        }
    }

    /// The message as it is sent to the thread.
    pub fn control_msg<T, A>(self) -> (msg: ControlMsg<T, A>)
        ensures
            msg == self.sent_as::<T, A>(),
    {
        match self {
            WorkerMessage::Kick => ControlMsg::Kick,
            WorkerMessage::Pause => ControlMsg::Pause,
            WorkerMessage::UpdateRateLimiter(bytes, ops) => ControlMsg::UpdateRateLimiter(
                bytes,
                ops,
            ),
            WorkerMessage::GetSavedState => ControlMsg::GetSavedState,
            WorkerMessage::MarkQMemDirty => ControlMsg::MarkQMemDirty,
            WorkerMessage::Reset => ControlMsg::Reset,
            WorkerMessage::Finish(mode) => ControlMsg::Finish(mode),
        }
    }
}

impl DeviceEffect {
    /// The thread that the work is a message to, and the message.
    pub open spec fn sent_to<T, A>(self) -> Option<(WorkerHandle, ControlMsg<T, A>)> {
        match self {
            DeviceEffect::Ask { worker, message } => Some((worker, message.sent_as())),
            DeviceEffect::AskForDisk { worker, path, read_only } => Some(
                (worker, ControlMsg::UpdateDiskImage(path, read_only)),
            ),
            _ => None,
        }
    }

    /// The thread that the work is a message to, and the message.
    pub fn control_msg<T, A>(self) -> (sent: Option<(WorkerHandle, ControlMsg<T, A>)>)
        ensures
            sent == self.sent_to::<T, A>(),
    {
        match self {
            DeviceEffect::Ask { worker, message } => Some((worker, message.control_msg())),
            DeviceEffect::AskForDisk { worker, path, read_only } => Some(
                (worker, ControlMsg::UpdateDiskImage(path, read_only)),
            ),
            _ => None,
        }
    }
}

/// The same work on each of the first `n` queues.
pub open spec fn work_on_each(n: nat, effect: WorkerEffect) -> Seq<DeviceEffect> {
    Seq::new(n, |i: int| DeviceEffect::Work { queue_index: i as u16, effect })
}

/// The same message to each thread.
pub open spec fn ask_each(
    workers: Seq<WorkerHandle>,
    message: WorkerMessage,
) -> Seq<DeviceEffect> {
    Seq::new(workers.len(), |i: int| DeviceEffect::Ask { worker: workers[i], message })
}

/// The same message to each thread.
pub(crate) fn message_to_each(workers: &Vec<WorkerHandle>, message: WorkerMessage) -> (effects: Vec<
    DeviceEffect,
>)
    ensures
        effects@ == ask_each(workers@, message),
{
    let mut effects: Vec<DeviceEffect> = Vec::new();
    let mut i: usize = 0;
    while i < workers.len()
        invariant
            i <= workers@.len(),
            effects@ == ask_each(workers@.take(i as int), message),
        decreases workers@.len() - i,
    {
        effects.push(DeviceEffect::Ask { worker: workers[i], message });
        i = i + 1;
        assert(effects@ =~= ask_each(workers@.take(i as int), message));
    }
    assert(workers@.take(i as int) =~= workers@);
    effects
}

/// The same request for another backing file to each thread.
pub open spec fn ask_each_for_disk(
    workers: Seq<WorkerHandle>,
    path: String,
    read_only: bool,
) -> Seq<DeviceEffect> {
    Seq::new(
        workers.len(),
        |i: int| DeviceEffect::AskForDisk { worker: workers[i], path, read_only },
    )
}

/// The same request for another backing file to each thread.
fn disk_request_to_each(workers: &Vec<WorkerHandle>, path: &String, read_only: bool) -> (effects:
    Vec<DeviceEffect>)
    ensures
        effects@ == ask_each_for_disk(workers@, *path, read_only),
{
    let mut effects: Vec<DeviceEffect> = Vec::new();
    let mut i: usize = 0;
    while i < workers.len()
        invariant
            i <= workers@.len(),
            effects@ == ask_each_for_disk(workers@.take(i as int), *path, read_only),
        decreases workers@.len() - i,
    {
        effects.push(
            DeviceEffect::AskForDisk { worker: workers[i], path: path.clone(), read_only },
        );
        i = i + 1;
        assert(effects@ =~= ask_each_for_disk(workers@.take(i as int), *path, read_only));
    }
    assert(workers@.take(i as int) =~= workers@);
    effects
}

/// How a device of the given cache is wound up.
pub open spec fn flush_mode_of(cache_type: CacheType) -> FlushMode {
    match cache_type {
        CacheType::Unsafe => FlushMode::Drain,
        CacheType::Writeback => FlushMode::DrainAndFlush,
    }
}

/// The first failure among the first `n` outcomes.
pub open spec fn first_queue_failure(
    outcomes: Seq<Result<(), QueueError>>,
    n: int,
) -> Option<QueueError>
    decreases n,
{
    if n <= 0 {
        None
    } else {
        match first_queue_failure(outcomes, n - 1) {
            Some(error) => Some(error),
            None => match outcomes[n - 1] {
                Err(error) => Some(error),
                Ok(_) => None,
            },
        }
    }
}

/// The first failure among the outcomes, if there is one.
pub(crate) fn first_failure(outcomes: &Vec<Result<(), QueueError>>) -> (result: Result<(), QueueError>)
    ensures
        result == match first_queue_failure(outcomes@, outcomes@.len() as int) {
            Some(error) => Err(error),
            None => Ok(()),
        },
{
    let mut result: Result<(), QueueError> = Ok(());
    let mut i: usize = 0;
    while i < outcomes.len()
        invariant
            i <= outcomes@.len(),
            result == match first_queue_failure(outcomes@, i as int) {
                Some(error) => Err(error),
                None => Ok(()),
            },
        decreases outcomes@.len() - i,
    {
        if result.is_ok() {
            if let Err(error) = outcomes[i] {
                result = Err(error);
            }
        }
        i = i + 1;
    }
    result
}

/// Why the first of the files that the host found, among the first `n`, cannot
/// be served.
pub open spec fn first_image_error(
    path: String,
    images: Seq<ImageReport>,
    n: int,
) -> Option<VirtioBlockError>
    decreases n,
{
    if n <= 0 {
        None
    } else {
        match first_image_error(path, images, n - 1) {
            Some(error) => Some(error),
            None => image_error(path, images[n - 1]),
        }
    }
}

/// What replacing the backing file does to queue `i`: nothing once another queue
/// has failed.
pub open spec fn disk_replaced<T>(
    before: BlockResources<T>,
    after: BlockResources<T>,
    path: String,
    images: Seq<ImageReport>,
    i: int,
) -> bool {
    if first_image_error(path, images, i) is Some {
        after == before
    } else {
        &&& after == (BlockResources { disk: after.disk, ..before })
        &&& before.disk.updates_to(
            path,
            images[i],
            after.disk,
            match image_error(path, images[i]) {
                Some(error) => Err(error),
                None => Ok(()),
            },
        )
    }
}

impl<T, A> VirtioBlock<T, A> {
    /// Whether the data path is with who serves it.
    pub fn is_activated(&self) -> (activated: bool)
        ensures
            activated == self.state is Active,
    {
        match &self.state {
            BlockState::Active(_) => true,
            _ => false,
        }
    }

    /// The data path of a queue, where the device holds it.
    pub fn resources(&self, queue: usize) -> (resources: &BlockResources<T>)
        requires
            self.wf(),
            self.holds_data_path(),
            queue < self.num_queues,
        ensures
            *resources == self.data_path()[queue as int],
    {
        match &self.state {
            BlockState::Configuring(resources, _) => &resources[queue],
            BlockState::Active(ActiveBlock::Inline(active)) => &active.worker.resources,
            _ => vstd::pervasive::unreached(),
        }
    }

    /// The backing file.
    pub fn disk(&self) -> (disk: &DiskProperties)
        requires
            self.wf(),
            self.holds_data_path(),
        ensures
            *disk == self.data_path()[0].disk,
    {
        &self.resources(0).disk
    }

    /// The access with which the device opens a backing file.
    pub fn image_access(&self) -> (access: OpenAccess)
        ensures
            access == (OpenAccess { read: true, write: !self.read_only }),
    {
        DiskProperties::open_access(self.read_only)
    }

    /// The engine that serves the backing file.
    pub fn file_engine_type(&self) -> (engine: FileEngineType)
        requires
            self.wf(),
            self.holds_data_path(),
        ensures
            engine == self.data_path()[0].disk.file_engine,
    {
        self.disk().file_engine
    }

    /// The configuration that describes the device as it is now, given that of
    /// its rate limiter.
    pub open spec fn described(self, rate_limiter: RateLimiterConfig) -> VirtioBlockConfig {
        VirtioBlockConfig {
            drive_id: self.id,
            partuuid: self.partuuid,
            is_root_device: self.root_device,
            cache_type: self.cache_type,
            is_read_only: self.read_only,
            threaded: self.threaded,
            num_queues: self.num_queues,
            path_on_host: self.data_path()[0].disk.file_path,
            rate_limiter: rate_limiter.spec_into_option(),
            file_engine_type: self.data_path()[0].disk.file_engine,
        }
    }

    /// The configuration that describes the device as it is now, given that of
    /// its rate limiter.
    pub fn config(&self, rate_limiter: RateLimiterConfig) -> (config: VirtioBlockConfig)
        requires
            self.wf(),
            self.holds_data_path(),
        ensures
            config == self.described(rate_limiter),
    {
        VirtioBlockConfig {
            drive_id: self.id.clone(),
            partuuid: self.partuuid.clone(),
            is_root_device: self.root_device,
            cache_type: self.cache_type,
            is_read_only: self.read_only,
            threaded: self.threaded,
            num_queues: self.num_queues,
            path_on_host: self.disk().file_path.clone(),
            rate_limiter: rate_limiter.into_option(),
            file_engine_type: self.file_engine_type(),
        }
    }

    /// Takes the data path out, and leaves the device without one.
    pub(crate) fn take_state(&mut self) -> (state: BlockState<T, A>)
        ensures
            state == old(self).state,
            final(self).state is Placeholder,
            *final(self) == (VirtioBlock { state: final(self).state, ..*old(self) }),
    {
        let mut state = BlockState::Placeholder;
        std::mem::swap(&mut self.state, &mut state);
        state
    }

    /// The data path of a queue, where the device holds it, to be worked on.
    pub fn resources_mut(&mut self, queue: usize) -> (resources: &mut BlockResources<T>)
        requires
            old(self).wf(),
            old(self).holds_data_path(),
            queue < old(self).num_queues,
        ensures
            *resources == old(self).data_path()[queue as int],
            final(self).data_path() == old(self).data_path().update(
                queue as int,
                *final(resources),
            ),
            old(self).keeps_owner(*final(self)),
            *final(self) == (VirtioBlock { state: final(self).state, ..*old(self) }),
    {
        match &mut self.state {
            BlockState::Configuring(resources, _) => &mut resources[queue],
            BlockState::Active(ActiveBlock::Inline(active)) => &mut active.worker.resources,
            _ => vstd::pervasive::unreached(),
        }
    }

    /// Replaces the backing file by the one that the host opened for each queue,
    /// where the device holds its data path. Files behind one that failed need not
    /// be there. A failure leaves what the driver
    /// sees as it was. The result says whether the driver has to be told, which
    /// it has once the device is active.
    pub fn update_disk_image(
        &mut self,
        disk_image_path: String,
        images: Vec<ImageReport>,
        metrics: &mut BlockDeviceMetrics,
    ) -> (result: Result<bool, VirtioBlockError>)
        requires
            old(self).wf(),
            old(self).holds_data_path(),
            images@.len() <= old(self).num_queues,
            first_image_error(disk_image_path, images@, images@.len() as int) is None
                ==> images@.len() == old(self).num_queues,
        ensures
            final(self).wf(),
            old(self).keeps_owner(*final(self)),
            final(self).data_path().len() == old(self).data_path().len(),
            forall|i: int|
                0 <= i < old(self).data_path().len() ==> disk_replaced(
                    old(self).data_path()[i],
                    #[trigger] final(self).data_path()[i],
                    disk_image_path,
                    images@,
                    i,
                ),
            *final(self) == (VirtioBlock {
                state: final(self).state,
                config_space: final(self).config_space,
                ..*old(self)
            }),
            match first_image_error(disk_image_path, images@, images@.len() as int) {
                Some(error) => {
                    &&& result == Err::<bool, VirtioBlockError>(error)
                    &&& final(self).config_space == old(self).config_space
                    &&& *final(metrics) == *old(metrics)
                },
                None => {
                    &&& result == Ok::<bool, VirtioBlockError>(final(self).state is Active)
                    &&& final(self).config_space == (ConfigSpace {
                        capacity: final(self).data_path()[0].disk.nsectors,
                        ..old(self).config_space
                    })
                    &&& *final(metrics) == (BlockDeviceMetrics {
                        update_count: crate::metrics::counted(old(metrics).update_count, 1),
                        ..*old(metrics)
                    })
                },
            },
    {
        match self.take_state() {
            BlockState::Configuring(resources, handles) => {
                let (resources, updated) = replace_disks(resources, &disk_image_path, &images);
                let nsectors = resources[0].disk.nsectors;
                self.state = BlockState::Configuring(resources, handles);
                if let Err(error) = updated {
                    return Err(error);
                }
                self.config_space.capacity = nsectors;
            },
            BlockState::Active(ActiveBlock::Inline(mut active)) => {
                proof {
                    reveal_with_fuel(first_image_error, 2);
                }
                let updated = active.worker.update_disk_image(disk_image_path, images[0]);
                self.state = BlockState::Active(ActiveBlock::Inline(active));
                match updated {
                    Err(error) => return Err(error),
                    Ok(nsectors) => {
                        self.config_space.capacity = nsectors;
                    },
                }
            },
            other => {
                self.state = other;
            },
        }
        count(&mut metrics.update_count, 1);
        Ok(self.is_activated())
    }

    /// The work by which the backing file is replaced where worker threads serve
    /// the queues: each of them is asked. Its outcomes go to
    /// `worker_disks_updated`.
    pub fn disk_update_work(&self, disk_image_path: String) -> (effects: Vec<DeviceEffect>)
        ensures
            effects@ == match self.state {
                BlockState::Active(ActiveBlock::Threaded(active)) => ask_each_for_disk(
                    active.worker_handles@,
                    disk_image_path,
                    self.read_only,
                ),
                _ => Seq::empty(),
            },
    {
        match &self.state {
            BlockState::Active(ActiveBlock::Threaded(active)) => disk_request_to_each(
                &active.worker_handles,
                &disk_image_path,
                self.read_only,
            ),
            _ => Vec::new(),
        }
    }

    /// Takes the answers of the worker threads to a request for another backing
    /// file, one for each queue: a number of sectors, or why it failed. Answers
    /// behind a failure need not be there.
    pub fn worker_disks_updated(
        &mut self,
        answers: Vec<Result<u64, VirtioBlockError>>,
        metrics: &mut BlockDeviceMetrics,
    ) -> (result: Result<bool, VirtioBlockError>)
        requires
            old(self).wf(),
            old(self).is_served_by_workers(),
            first_answer_error(answers@, answers@.len() as int) is None ==> answers@.len()
                == old(self).num_queues,
        ensures
            final(self).wf(),
            *final(self) == (VirtioBlock {
                config_space: final(self).config_space,
                ..*old(self)
            }),
            match first_answer_error(answers@, answers@.len() as int) {
                Some(error) => {
                    &&& result == Err::<bool, VirtioBlockError>(error)
                    &&& final(self).config_space == old(self).config_space
                    &&& *final(metrics) == *old(metrics)
                },
                None => {
                    &&& result == Ok::<bool, VirtioBlockError>(true)
                    &&& final(self).config_space == (ConfigSpace {
                        capacity: answers@[0]->Ok_0,
                        ..old(self).config_space
                    })
                    &&& *final(metrics) == (BlockDeviceMetrics {
                        update_count: crate::metrics::counted(old(metrics).update_count, 1),
                        ..*old(metrics)
                    })
                },
            },
    {
        let nsectors = first_sector_count(answers)?;
        self.config_space.capacity = nsectors;
        count(&mut metrics.update_count, 1);
        Ok(true)
    }

    /// The work by which the rate limiters are changed, wherever they are.
    pub fn update_rate_limiter(&self, bytes: BucketUpdate, ops: BucketUpdate) -> (effects: Vec<
        DeviceEffect,
    >)
        requires
            self.wf(),
            !(self.state is Placeholder),
        ensures
            effects@ == if self.is_served_by_workers() {
                ask_each(self.handles(), WorkerMessage::UpdateRateLimiter(bytes, ops))
            } else {
                work_on_each(self.num_queues as nat, WorkerEffect::UpdateBuckets(bytes, ops))
            },
    {
        match &self.state {
            BlockState::Active(ActiveBlock::Threaded(active)) => message_to_each(
                &active.worker_handles,
                WorkerMessage::UpdateRateLimiter(bytes, ops),
            ),
            _ => {
                let mut effects: Vec<DeviceEffect> = Vec::new();
                let mut index: u16 = 0;
                while index < self.num_queues
                    invariant
                        index <= self.num_queues,
                        effects@ == work_on_each(
                            index as nat,
                            WorkerEffect::UpdateBuckets(bytes, ops),
                        ),
                    decreases self.num_queues - index,
                {
                    effects.push(
                        DeviceEffect::Work {
                            queue_index: index,
                            effect: WorkerEffect::UpdateBuckets(bytes, ops),
                        },
                    );
                    index = index + 1;
                    assert(effects@ =~= work_on_each(
                        index as nat,
                        WorkerEffect::UpdateBuckets(bytes, ops),
                    ));
                }
                effects
            },
        }
    }

    /// The work by which the device is made ready to be saved: the backing file
    /// reflects all requests, and worker threads are paused.
    pub fn prepare_save(&self) -> (effects: Vec<DeviceEffect>)
        ensures
            effects@ == match self.state {
                BlockState::Active(ActiveBlock::Inline(active)) => work_on_first(
                    save_work(active.worker.resources.disk.file_engine),
                ),
                BlockState::Active(ActiveBlock::Threaded(active)) => ask_each(
                    active.worker_handles@,
                    WorkerMessage::Pause,
                ),
                _ => Seq::empty(),
            },
    {
        match &self.state {
            BlockState::Active(ActiveBlock::Inline(active)) => on_first(
                active.worker.prepare_save(),
            ),
            BlockState::Active(ActiveBlock::Threaded(active)) => message_to_each(
                &active.worker_handles,
                WorkerMessage::Pause,
            ),
            _ => Vec::new(),
        }
    }

    /// The work by which the device serves its queues although the driver did
    /// not notify it, and by which paused worker threads go on.
    pub fn kick(&self) -> (effects: Vec<DeviceEffect>)
        ensures
            effects@ == match self.state {
                BlockState::Active(ActiveBlock::Inline(_)) => seq![
                    DeviceEffect::NotifyQueueEvents,
                ],
                BlockState::Active(ActiveBlock::Threaded(active)) => ask_each(
                    active.worker_handles@,
                    WorkerMessage::Kick,
                ),
                _ => Seq::empty(),
            },
    {
        match &self.state {
            BlockState::Active(ActiveBlock::Inline(_)) => {
                let mut effects: Vec<DeviceEffect> = Vec::new();
                effects.push(DeviceEffect::NotifyQueueEvents);
                effects
            },
            BlockState::Active(ActiveBlock::Threaded(active)) => message_to_each(
                &active.worker_handles,
                WorkerMessage::Kick,
            ),
            _ => Vec::new(),
        }
    }

    /// The work by which the pages of the queues count as dirty. Its outcomes go
    /// to `mark_queue_memory_dirty`.
    pub fn dirty_work(&self) -> (effects: Vec<DeviceEffect>)
        ensures
            effects@ == match self.state {
                BlockState::Active(ActiveBlock::Inline(_)) => work_on_first(
                    seq![WorkerEffect::MarkQueueDirty],
                ),
                BlockState::Active(ActiveBlock::Threaded(active)) => ask_each(
                    active.worker_handles@,
                    WorkerMessage::MarkQMemDirty,
                ),
                _ => Seq::empty(),
            },
    {
        match &self.state {
            BlockState::Active(ActiveBlock::Inline(_)) => {
                let mut work: Vec<WorkerEffect> = Vec::new();
                work.push(WorkerEffect::MarkQueueDirty);
                on_first(work)
            },
            BlockState::Active(ActiveBlock::Threaded(active)) => message_to_each(
                &active.worker_handles,
                WorkerMessage::MarkQMemDirty,
            ),
            _ => Vec::new(),
        }
    }

    /// Whether the pages of the queues count as dirty, given the outcomes of the
    /// work, up to the first that failed: the first failure, if there is one. A
    /// device that is not active has no such pages.
    pub fn mark_queue_memory_dirty(&self, outcomes: Vec<Result<(), QueueError>>) -> (result:
        Result<(), QueueError>)
        requires
            self.state is Active && first_queue_failure(outcomes@, outcomes@.len() as int) is None
                ==> outcomes@.len() == self.num_queues,
        ensures
            !(self.state is Active) ==> result is Ok,
            self.state is Active ==> result == match first_queue_failure(
                outcomes@,
                outcomes@.len() as int,
            ) {
                Some(error) => Err::<(), QueueError>(error),
                None => Ok::<(), QueueError>(()),
            },
    {
        if self.is_activated() {
            first_failure(&outcomes)
        } else {
            Ok(())
        }
    }
}

/// The first error among the first `n` answers.
pub open spec fn first_answer_error(
    answers: Seq<Result<u64, VirtioBlockError>>,
    n: int,
) -> Option<VirtioBlockError>
    decreases n,
{
    if n <= 0 {
        None
    } else {
        match first_answer_error(answers, n - 1) {
            Some(error) => Some(error),
            None => match answers[n - 1] {
                Err(error) => Some(error),
                Ok(_) => None,
            },
        }
    }
}

/// The first error among the answers, or the first number of sectors.
fn first_sector_count(answers: Vec<Result<u64, VirtioBlockError>>) -> (result: Result<
    u64,
    VirtioBlockError,
>)
    requires
        answers@.len() > 0,
    ensures
        result == match first_answer_error(answers@, answers@.len() as int) {
            Some(error) => Err(error),
            None => answers@[0],
        },
        first_answer_error(answers@, answers@.len() as int) is None ==> result is Ok,
{
    let ghost all = answers@;
    let mut waiting = answers;
    let mut result: Result<u64, VirtioBlockError> = waiting.remove(0);
    let ghost mut taken: int = 1;
    proof {
        reveal_with_fuel(first_answer_error, 2);
    }
    while waiting.len() > 0
        invariant
            1 <= taken <= all.len(),
            waiting@ == all.skip(taken),
            result == match first_answer_error(all, taken) {
                Some(error) => Err(error),
                None => all[0],
            },
        decreases waiting@.len(),
    {
        let answer = waiting.remove(0);
        if result.is_ok() {
            if let Err(error) = answer {
                result = Err(error);
            }
        }
        proof {
            taken = taken + 1;
            lemma_first_answer_error(all, taken - 1);
            assert(waiting@ =~= all.skip(taken));
        }
    }
    proof {
        lemma_first_answer_error(all, taken);
    }
    result
}

/// Without an error among the first answers, the first of them is none.
proof fn lemma_first_answer_error(answers: Seq<Result<u64, VirtioBlockError>>, n: int)
    requires
        1 <= n,
    ensures
        first_answer_error(answers, n) is None ==> answers[0] is Ok,
    decreases n,
{
    if n > 1 {
        lemma_first_answer_error(answers, n - 1);
    } else {
        reveal_with_fuel(first_answer_error, 2);
    }
}

/// Work on the only queue of a device.
pub open spec fn work_on_first(work: Seq<WorkerEffect>) -> Seq<DeviceEffect> {
    Seq::new(work.len(), |i: int| DeviceEffect::Work { queue_index: 0, effect: work[i] })
}

/// Work on the only queue of a device.
fn on_first(work: Vec<WorkerEffect>) -> (effects: Vec<DeviceEffect>)
    ensures
        effects@ == work_on_first(work@),
{
    let mut effects: Vec<DeviceEffect> = Vec::new();
    let mut waiting = work;
    while waiting.len() > 0
        invariant
            effects@.len() + waiting@.len() == work@.len(),
            waiting@ == work@.skip(effects@.len() as int),
            effects@ == work_on_first(work@.take(effects@.len() as int)),
        decreases waiting@.len(),
    {
        let effect = waiting.remove(0);
        effects.push(DeviceEffect::Work { queue_index: 0, effect });
        assert(waiting@ =~= work@.skip(effects@.len() as int));
        assert(effects@ =~= work_on_first(work@.take(effects@.len() as int)));
    }
    assert(work@.take(effects@.len() as int) =~= work@);
    effects
}

/// Replaces the backing file of each queue, up to the first that fails.
fn replace_disks<T>(
    resources: Vec<BlockResources<T>>,
    path: &String,
    images: &Vec<ImageReport>,
) -> (replaced: (Vec<BlockResources<T>>, Result<(), VirtioBlockError>))
    requires
        images@.len() <= resources@.len(),
        first_image_error(*path, images@, images@.len() as int) is None ==> images@.len()
            == resources@.len(),
    ensures
        replaced.0@.len() == resources@.len(),
        forall|i: int|
            0 <= i < resources@.len() ==> disk_replaced(
                resources@[i],
                #[trigger] replaced.0@[i],
                *path,
                images@,
                i,
            ),
        replaced.1 == match first_image_error(*path, images@, images@.len() as int) {
            Some(error) => Err::<(), VirtioBlockError>(error),
            None => Ok::<(), VirtioBlockError>(()),
        },
{
    let mut after = resources;
    let mut result: Result<(), VirtioBlockError> = Ok(());
    let mut i: usize = 0;
    while i < images.len()
        invariant
            i <= images@.len() <= resources@.len(),
            after@.len() == resources@.len(),
            forall|j: int|
                0 <= j < i ==> disk_replaced(
                    resources@[j],
                    #[trigger] after@[j],
                    *path,
                    images@,
                    j,
                ),
            forall|j: int| i <= j < resources@.len() ==> after@[j] == resources@[j],
            result == match first_image_error(*path, images@, i as int) {
                Some(error) => Err::<(), VirtioBlockError>(error),
                None => Ok::<(), VirtioBlockError>(()),
            },
        decreases images@.len() - i,
    {
        if result.is_ok() {
            result = after[i].disk.update(path.clone(), images[i]);
        }
        i = i + 1;
    }
    proof {
        assert forall|j: int| images@.len() <= j < resources@.len() implies disk_replaced(
            resources@[j],
            #[trigger] after@[j],
            *path,
            images@,
            j,
        ) by {
            lemma_image_error_stays(*path, images@, images@.len() as int, j);
        }
    }
    (after, result)
}

/// A new device is described by the configuration that it was made of, provided
/// that its rate limiter has the limits of that configuration.
pub proof fn law_new_device_is_described_by_its_config<T, A>(
    block: VirtioBlock<T, A>,
    config: VirtioBlockConfig,
    queues: Seq<crate::device::NewQueue<T>>,
    rate_limiter: RateLimiterConfig,
)
    requires
        block.is_new(config, queues),
        rate_limiter.spec_into_option() == config.rate_limiter,
    ensures
        block.described(rate_limiter) == config,
{
    let resources = block.data_path()[0];
}

/// The driver of a new device sees the number of whole sectors in its backing
/// file; what lies behind the last whole sector is not shown.
pub proof fn law_new_device_shows_whole_sectors<T, A>(
    block: VirtioBlock<T, A>,
    config: VirtioBlockConfig,
    queues: Seq<crate::device::NewQueue<T>>,
    size: u64,
)
    requires
        block.is_new(config, queues),
        queues[0].image matches ImageReport::Opened { size: found, .. } && found == size,
    ensures
        block.config_space.bytes().take(CAPACITY_SIZE as int) == le_bytes(
            (size as int / SECTOR_SIZE as int) as u64,
        ),
{
    let resources = block.data_path()[0];
    crate::config_space::law_driver_reads_capacity_and_queues(block.config_space);
}

/// Where no file fails, replacing the backing file gives each queue the new
/// file: its path, its whole sectors and its identifier, under the same engine.
pub proof fn law_every_queue_gets_the_new_disk<T>(
    before: BlockResources<T>,
    after: BlockResources<T>,
    path: String,
    images: Seq<ImageReport>,
    i: int,
)
    requires
        first_image_error(path, images, images.len() as int) is None,
        0 <= i < images.len(),
        disk_replaced(before, after, path, images, i),
    ensures
        images[i] matches ImageReport::Opened { size, metadata, .. } && after.disk.describes(
            path,
            before.disk.file_engine,
            size,
            metadata,
        ),
        after == (BlockResources { disk: after.disk, ..before }),
{
    lemma_image_error_stays(path, images, i, images.len() as int);
    lemma_image_error_stays(path, images, i + 1, images.len() as int);
}

/// An error among the first files is the first of all of them.
proof fn lemma_image_error_stays(path: String, images: Seq<ImageReport>, n: int, m: int)
    requires
        n <= m,
    ensures
        first_image_error(path, images, n) is Some ==> first_image_error(path, images, m)
            == first_image_error(path, images, n),
    decreases m - n,
{
    if n < m {
        lemma_image_error_stays(path, images, n, m - 1);
    }
}

/// Work on each queue is the given work, once for each queue and in their order.
pub proof fn law_each_queue_gets_the_work(n: nat, effect: WorkerEffect, i: int)
    requires
        n <= 65536,
    ensures
        work_on_each(n, effect).len() == n,
        0 <= i < n ==> (work_on_each(n, effect)[i] matches DeviceEffect::Work {
            queue_index,
            effect: done,
        } && queue_index == i && done == effect),
{
}

/// Work on the only queue of a device is the given work, in its order.
pub proof fn law_only_queue_gets_the_work(work: Seq<WorkerEffect>, i: int)
    ensures
        work_on_first(work).len() == work.len(),
        0 <= i < work.len() ==> (work_on_first(work)[i] matches DeviceEffect::Work {
            queue_index,
            effect,
        } && queue_index == 0 && effect == work[i]),
{
}

/// Each thread is asked once, in the order of the threads and for the same.
pub proof fn law_each_thread_is_asked(
    workers: Seq<WorkerHandle>,
    message: WorkerMessage,
    path: String,
    read_only: bool,
    i: int,
)
    ensures
        ask_each(workers, message).len() == workers.len(),
        ask_each_for_disk(workers, path, read_only).len() == workers.len(),
        0 <= i < workers.len() ==> {
            &&& ask_each(workers, message)[i] matches DeviceEffect::Ask { worker, message: sent }
            &&& worker == workers[i]
            &&& sent == message
        },
        0 <= i < workers.len() ==> {
            &&& ask_each_for_disk(workers, path, read_only)[i] matches DeviceEffect::AskForDisk {
                worker,
                path: wanted,
                read_only: access,
            }
            &&& worker == workers[i]
            &&& wanted == path
            &&& access == read_only
        },
{
}

/// Data is flushed when a device goes exactly if its cache is written back.
pub proof fn law_written_back_caches_are_flushed(cache_type: CacheType)
    ensures
        flush_mode_of(cache_type) is DrainAndFlush <==> cache_type is Writeback,
        flush_mode_of(cache_type) is Drain <==> cache_type is Unsafe,
{
}

/// What a device asks arrives as it was asked, under the request of its name.
pub proof fn law_messages_arrive_as_they_were_asked<T, A>(
    message: WorkerMessage,
    worker: WorkerHandle,
    path: String,
    read_only: bool,
)
    ensures
        message is Kick <==> message.sent_as::<T, A>() is Kick,
        message is Pause <==> message.sent_as::<T, A>() is Pause,
        message is GetSavedState <==> message.sent_as::<T, A>() is GetSavedState,
        message is MarkQMemDirty <==> message.sent_as::<T, A>() is MarkQMemDirty,
        message is Reset <==> message.sent_as::<T, A>() is Reset,
        message matches WorkerMessage::UpdateRateLimiter(bytes, ops) ==> (message.sent_as::<T, A>()
            matches ControlMsg::UpdateRateLimiter(b, o) && b == bytes && o == ops),
        message matches WorkerMessage::Finish(mode) ==> (message.sent_as::<T, A>()
            matches ControlMsg::Finish(m) && m == mode),
        (DeviceEffect::Ask { worker, message }).sent_to::<T, A>() == Some(
            (worker, message.sent_as::<T, A>()),
        ),
        (DeviceEffect::AskForDisk { worker, path, read_only }).sent_to::<T, A>() matches Some(
            (to, ControlMsg::UpdateDiskImage(wanted, access)),
        ) && to == worker && wanted == path && access == read_only,
        DeviceEffect::NotifyQueueEvents.sent_to::<T, A>() is None,
{
}

/// The configuration of a device names what the device is, the file and the engine
/// that it has now, and its limits where there are any.
pub proof fn law_what_a_configuration_names<T, A>(
    block: VirtioBlock<T, A>,
    rate_limiter: RateLimiterConfig,
)
    ensures
        block.described(rate_limiter).drive_id == block.id,
        block.described(rate_limiter).partuuid == block.partuuid,
        block.described(rate_limiter).is_root_device == block.root_device,
        block.described(rate_limiter).cache_type == block.cache_type,
        block.described(rate_limiter).is_read_only == block.read_only,
        block.described(rate_limiter).threaded == block.threaded,
        block.described(rate_limiter).num_queues == block.num_queues,
        block.described(rate_limiter).path_on_host == block.data_path()[0].disk.file_path,
        block.described(rate_limiter).file_engine_type == block.data_path()[0].disk.file_engine,
        block.described(rate_limiter).rate_limiter is Some <==> rate_limiter.bandwidth is Some
            || rate_limiter.ops is Some,
        block.described(rate_limiter).rate_limiter matches Some(shown) ==> shown == rate_limiter,
{
}

/// The failure of several queues is that of the first queue that failed. There is
/// none exactly if all succeeded.
pub proof fn law_first_queue_failure(outcomes: Seq<Result<(), QueueError>>, i: int)
    ensures
        first_queue_failure(outcomes, outcomes.len() as int) is None <==> forall|j: int|
            0 <= j < outcomes.len() ==> (#[trigger] outcomes[j]) is Ok,
        0 <= i < outcomes.len() && outcomes[i] is Err && (forall|j: int|
            0 <= j < i ==> (#[trigger] outcomes[j]) is Ok) ==> first_queue_failure(
            outcomes,
            outcomes.len() as int,
        ) == Some(outcomes[i]->Err_0),
{
    lemma_queue_failures(outcomes, outcomes.len() as int);
    if 0 <= i < outcomes.len() && outcomes[i] is Err && (forall|j: int|
        0 <= j < i ==> (#[trigger] outcomes[j]) is Ok) {
        lemma_queue_failures(outcomes, i);
        lemma_queue_failure_stays(outcomes, i + 1, outcomes.len() as int);
    }
}

proof fn lemma_queue_failures(outcomes: Seq<Result<(), QueueError>>, n: int)
    requires
        0 <= n <= outcomes.len(),
    ensures
        first_queue_failure(outcomes, n) is None <==> forall|j: int|
            0 <= j < n ==> (#[trigger] outcomes[j]) is Ok,
    decreases n,
{
    if n > 0 {
        lemma_queue_failures(outcomes, n - 1);
        if first_queue_failure(outcomes, n - 1) is Some {
            let j = choose|j: int| 0 <= j < n - 1 && !((#[trigger] outcomes[j]) is Ok);
            assert(0 <= j < n && !(outcomes[j] is Ok));
        } else {
            assert(first_queue_failure(outcomes, n) is Some == outcomes[n - 1] is Err);
        }
    }
}

proof fn lemma_queue_failure_stays(outcomes: Seq<Result<(), QueueError>>, n: int, m: int)
    requires
        n <= m,
    ensures
        first_queue_failure(outcomes, n) is Some ==> first_queue_failure(outcomes, m)
            == first_queue_failure(outcomes, n),
    decreases m - n,
{
    if n < m {
        lemma_queue_failure_stays(outcomes, n, m - 1);
    }
}

/// The error of several answers is that of the first answer that has one. There is
/// none exactly if all answers are numbers of sectors.
pub proof fn law_first_error_of_answers(answers: Seq<Result<u64, VirtioBlockError>>, i: int)
    ensures
        first_answer_error(answers, answers.len() as int) is None <==> forall|j: int|
            0 <= j < answers.len() ==> (#[trigger] answers[j]) is Ok,
        0 <= i < answers.len() && answers[i] is Err && (forall|j: int|
            0 <= j < i ==> (#[trigger] answers[j]) is Ok) ==> first_answer_error(
            answers,
            answers.len() as int,
        ) == Some(answers[i]->Err_0),
{
    lemma_answer_errors(answers, answers.len() as int);
    if 0 <= i < answers.len() && answers[i] is Err && (forall|j: int|
        0 <= j < i ==> (#[trigger] answers[j]) is Ok) {
        lemma_answer_errors(answers, i);
        lemma_answer_error_stays(answers, i + 1, answers.len() as int);
    }
}

proof fn lemma_answer_errors(answers: Seq<Result<u64, VirtioBlockError>>, n: int)
    requires
        0 <= n <= answers.len(),
    ensures
        first_answer_error(answers, n) is None <==> forall|j: int|
            0 <= j < n ==> (#[trigger] answers[j]) is Ok,
    decreases n,
{
    if n > 0 {
        lemma_answer_errors(answers, n - 1);
        if first_answer_error(answers, n - 1) is Some {
            let j = choose|j: int| 0 <= j < n - 1 && !((#[trigger] answers[j]) is Ok);
            assert(0 <= j < n && !(answers[j] is Ok));
        } else {
            assert(first_answer_error(answers, n) is Some == answers[n - 1] is Err);
        }
    }
}

proof fn lemma_answer_error_stays(answers: Seq<Result<u64, VirtioBlockError>>, n: int, m: int)
    requires
        n <= m,
    ensures
        first_answer_error(answers, n) is Some ==> first_answer_error(answers, m)
            == first_answer_error(answers, n),
    decreases m - n,
{
    if n < m {
        lemma_answer_error_stays(answers, n, m - 1);
    }
}

/// The error of several files is that of the first file that cannot be served.
/// There is none exactly if all can.
pub proof fn law_first_error_of_images(path: String, images: Seq<ImageReport>, i: int)
    ensures
        first_image_error(path, images, images.len() as int) is None <==> forall|j: int|
            0 <= j < images.len() ==> ((#[trigger] images[j]) matches ImageReport::Opened {
                engine: Ok(_),
                ..
            }),
        0 <= i < images.len() && image_error(path, images[i]) is Some && (forall|j: int|
            0 <= j < i ==> ((#[trigger] images[j]) matches ImageReport::Opened {
                engine: Ok(_),
                ..
            })) ==> first_image_error(path, images, images.len() as int) == image_error(
            path,
            images[i],
        ),
{
    lemma_image_errors(path, images, images.len() as int);
    if 0 <= i < images.len() && image_error(path, images[i]) is Some && (forall|j: int|
        0 <= j < i ==> ((#[trigger] images[j]) matches ImageReport::Opened { engine: Ok(_), .. })) {
        lemma_image_errors(path, images, i);
        lemma_image_error_stays(path, images, i + 1, images.len() as int);
    }
}

proof fn lemma_image_errors(path: String, images: Seq<ImageReport>, n: int)
    requires
        0 <= n <= images.len(),
    ensures
        first_image_error(path, images, n) is None <==> forall|j: int|
            0 <= j < n ==> ((#[trigger] images[j]) matches ImageReport::Opened {
                engine: Ok(_),
                ..
            }),
    decreases n,
{
    if n > 0 {
        lemma_image_errors(path, images, n - 1);
        if first_image_error(path, images, n - 1) is Some {
            let j = choose|j: int|
                0 <= j < n - 1 && !((#[trigger] images[j]) matches ImageReport::Opened {
                    engine: Ok(_),
                    ..
                });
            assert(0 <= j < n && !(images[j] matches ImageReport::Opened { engine: Ok(_), .. }));
        } else {
            assert(first_image_error(path, images, n) == image_error(path, images[n - 1]));
        }
    }
}

/// Where a file fails, the queues before it have the new file, its own queue
/// keeps its path, its engine and its sectors, and the queues behind it keep
/// everything.
pub proof fn law_failed_update_stops_at_the_failure<T>(
    before: BlockResources<T>,
    after: BlockResources<T>,
    path: String,
    images: Seq<ImageReport>,
    failed: int,
    i: int,
)
    requires
        0 <= failed < images.len(),
        image_error(path, images[failed]) is Some,
        forall|j: int| 0 <= j < failed ==> image_error(path, #[trigger] images[j]) is None,
        0 <= i,
        disk_replaced(before, after, path, images, i),
    ensures
        after.io == before.io,
        after.queue_index == before.queue_index,
        after.is_io_engine_throttled == before.is_io_engine_throttled,
        after.disk.file_engine == before.disk.file_engine,
        i < failed ==> after.disk.file_path == path,
        i >= failed ==> after.disk.file_path == before.disk.file_path && after.disk.nsectors
            == before.disk.nsectors,
        i > failed ==> after == before,
{
    assert forall|j: int| 0 <= j < failed implies ((#[trigger] images[j])
        matches ImageReport::Opened { engine: Ok(_), .. }) by {
        assert(image_error(path, images[j]) is None);
    }
    lemma_image_errors(path, images, failed);
    if i <= failed {
        lemma_image_error_stays(path, images, i, failed);
        if i < failed {
            assert(image_error(path, images[i]) is None);
        }
    } else {
        assert(first_image_error(path, images, failed + 1) is Some);
        lemma_image_error_stays(path, images, failed + 1, i);
    }
}

} // verus!
