//! Saving and restoring a block device.

use vstd::prelude::*;

use crate::config::{CacheType, FileEngineType};
use crate::config_space::ConfigSpace;
use crate::device::{check_queue_count, image_error, is_fresh, queue_count_error};
use crate::device::{ActiveBlock, BlockState, VirtioBlock};
use crate::device_ops::{ask_each, message_to_each, DeviceEffect, WorkerMessage};
use crate::disk::{sector_count, DiskProperties, ImageReport, ImageRequest, OpenAccess};
use crate::error::{OsError, PersistError, VirtioBlockError};
use crate::features::{has_bit, has_feature};
use crate::handle::WorkerHandle;
use crate::resources::BlockResources;
use crate::threaded::{saved_engine, SavedState};
use crate::virtio::{VirtioDeviceType, VIRTIO_BLK_F_MQ, VIRTIO_BLK_F_RO};

verus! {

/// The engine of a saved device.
#[derive(Clone, Copy, Debug, PartialEq, Eq, Structural)]
pub enum FileEngineTypeState {
    /// Requests block until they are done. A saved device that does not name
    /// its engine has this one.
    Sync,
    /// Requests are submitted and complete later.
    Async,
}

impl Default for FileEngineTypeState {
    fn default() -> (engine: Self)
        ensures
            engine == FileEngineTypeState::Sync,
    {
        FileEngineTypeState::Sync
    }
}

impl From<FileEngineType> for FileEngineTypeState {
    fn from(file_engine_type: FileEngineType) -> (state: Self) {
        match file_engine_type {
            FileEngineType::Sync => FileEngineTypeState::Sync,
            FileEngineType::Async => FileEngineTypeState::Async,
        }
    }
}

impl vstd::std_specs::convert::FromSpecImpl<FileEngineType> for FileEngineTypeState {
    open spec fn obeys_from_spec() -> bool {
        true
    }

    open spec fn from_spec(file_engine_type: FileEngineType) -> Self {
        match file_engine_type {
            FileEngineType::Sync => FileEngineTypeState::Sync,
            FileEngineType::Async => FileEngineTypeState::Async,
        }
    }
}

impl From<FileEngineTypeState> for FileEngineType {
    fn from(file_engine_type_state: FileEngineTypeState) -> (engine: Self) {
        match file_engine_type_state {
            FileEngineTypeState::Sync => FileEngineType::Sync,
            FileEngineTypeState::Async => FileEngineType::Async,
        }
    }
}

impl vstd::std_specs::convert::FromSpecImpl<FileEngineTypeState> for FileEngineType {
    open spec fn obeys_from_spec() -> bool {
        true
    }

    open spec fn from_spec(file_engine_type_state: FileEngineTypeState) -> Self {
        match file_engine_type_state {
            FileEngineTypeState::Sync => FileEngineType::Sync,
            FileEngineTypeState::Async => FileEngineType::Async,
        }
    }
}

/// The part of a saved device that every kind of virtio device has. `Q` is the
/// state of a queue, as the host keeps it.
#[derive(Clone, Debug)]
pub struct VirtioDeviceState<Q> {
    /// Kind of the device.
    pub device_type: VirtioDeviceType,
    /// Features that the device offers.
    pub avail_features: u64,
    /// Features that the driver took.
    pub acked_features: u64,
    /// State of each queue.
    pub queues: Vec<Q>,
    /// Whether the device was active.
    pub activated: bool,
}

/// A saved block device. `R` is the state of a rate limiter, as the host keeps
/// it.
#[derive(Clone, Debug)]
pub struct VirtioBlockState<Q, R> {
    /// Unique identifier of the drive.
    pub id: String,
    /// Identifier of the boot partition.
    pub partuuid: Option<String>,
    /// Whether flush requests are offered.
    pub cache_type: CacheType,
    /// Whether the drive is the root device.
    pub root_device: bool,
    /// Path of the backing file.
    pub disk_path: String,
    /// What every kind of virtio device has.
    pub virtio_state: VirtioDeviceState<Q>,
    /// State of the rate limiter of each queue.
    pub rate_limiter_states: Vec<R>,
    /// Engine that serves the backing file.
    pub file_engine_type: FileEngineTypeState,
    /// Whether each queue is served by a worker thread.
    pub threaded: bool,
}

/// What the host collected of the data path of a device that is saved.
#[derive(Debug)]
pub enum DataPathSnapshot<Q, R> {
    /// From the device, which holds it.
    Device {
        /// State of each queue.
        queues: Vec<Q>,
        /// State of the rate limiter of each queue.
        rate_limiters: Vec<R>,
    },
    /// From the worker threads.
    Workers(Vec<SavedState<Q, R>>),
}

/// What the host made for a queue of a restored device.
#[derive(Debug)]
pub struct RestoredQueue<T> {
    /// Whether it could make the queue event.
    pub event: Result<(), OsError>,
    /// What it found at the path of the backing file.
    pub image: ImageReport,
    /// What it keeps for the queue, or why the rate limiter could not be
    /// restored. It is not looked at where the event or the file failed.
    pub io: Result<T, OsError>,
}

/// The engine that a saved device names.
pub open spec fn restored_engine(engine: FileEngineTypeState) -> FileEngineType {
    match engine {
        FileEngineTypeState::Sync => FileEngineType::Sync,
        FileEngineTypeState::Async => FileEngineType::Async,
    }
}

impl<T> RestoredQueue<T> {
    /// Why there is no such queue: first the event, then the backing file, then
    /// the rate limiter.
    pub open spec fn error(self, path: String) -> Option<VirtioBlockError> {
        match self.event {
            Err(error) => Some(VirtioBlockError::EventFd(error)),
            Ok(_) => match image_error(path, self.image) {
                Some(error) => Some(error),
                None => match self.io {
                    Err(error) => Some(VirtioBlockError::RateLimiter(error)),
                    Ok(_) => None,
                },
            },
        }
    }
}

/// The first error among the first `n` queues of a restored device.
pub open spec fn first_restore_error<T>(
    queues: Seq<RestoredQueue<T>>,
    path: String,
    n: int,
) -> Option<VirtioBlockError>
    decreases n,
{
    if n <= 0 {
        None
    } else {
        match first_restore_error(queues, path, n - 1) {
            Some(error) => Some(error),
            None => queues[n - 1].error(path),
        }
    }
}

/// An error among the first queues is the first of all of them.
proof fn lemma_first_restore_error_stays<T>(
    queues: Seq<RestoredQueue<T>>,
    path: String,
    n: int,
    m: int,
)
    requires
        0 <= n <= m,
    ensures
        first_restore_error(queues, path, n) is Some ==> first_restore_error(queues, path, m)
            == first_restore_error(queues, path, n),
    decreases m - n,
{
    if n < m {
        lemma_first_restore_error_stays(queues, path, n, m - 1);
    }
}

impl<Q, R> VirtioBlockState<Q, R> {
    /// Number of queues of the saved device.
    pub open spec fn num_queues(self) -> int {
        self.virtio_state.queues@.len() as int
    }

    /// Why a saved device is refused before anything is made for it: its number
    /// of queues is not accepted, its features do not fit that number, or it
    /// does not have a rate limiter for each queue.
    pub open spec fn error(self) -> Option<VirtioBlockError> {
        match queue_count_error(self.num_queues(), self.threaded) {
            Some(error) => Some(error),
            None => if has_bit(self.virtio_state.avail_features, VIRTIO_BLK_F_MQ) != (
            self.num_queues() > 1) || self.rate_limiter_states@.len() != self.num_queues() {
                Some(VirtioBlockError::Persist(PersistError::InvalidInput))
            } else {
                None
            },
        }
    }

    /// Whether the saved device is read-only.
    pub open spec fn read_only(self) -> bool {
        has_bit(self.virtio_state.avail_features, VIRTIO_BLK_F_RO)
    }

    /// The access with which the backing file is opened for a restored device.
    pub fn image_access(&self) -> (access: OpenAccess)
        ensures
            access == (OpenAccess { read: true, write: !self.read_only() }),
    {
        DiskProperties::open_access(
            has_feature(self.virtio_state.avail_features, VIRTIO_BLK_F_RO),
        )
    }

    /// The backing file that the host opens for each queue of a restored device.
    pub open spec fn image_wanted(self) -> ImageRequest {
        ImageRequest {
            path: self.disk_path,
            access: OpenAccess { read: true, write: !self.read_only() },
            engine: restored_engine(self.file_engine_type),
        }
    }

    /// The backing file that the host opens for each queue of a restored device.
    pub fn image_request(&self) -> (request: ImageRequest)
        ensures
            request == self.image_wanted(),
    {
        ImageRequest {
            path: self.disk_path.clone(),
            access: self.image_access(),
            engine: FileEngineType::from(self.file_engine_type),
        }
    }

    /// The saved queue and the saved rate limiter that a queue of a restored
    /// device is made of.
    pub fn queue_parts(&self, queue: usize) -> (parts: (&Q, &R))
        requires
            self.error() is None,
            queue < self.num_queues(),
        ensures
            *parts.0 == self.virtio_state.queues@[queue as int],
            *parts.1 == self.rate_limiter_states@[queue as int],
    {
        (&self.virtio_state.queues[queue], &self.rate_limiter_states[queue])
    }

    /// Accepts a saved device, or says why it is refused.
    pub fn check(&self) -> (result: Result<(), VirtioBlockError>)
        ensures
            result == match self.error() {
                Some(error) => Err(error),
                None => Ok(()),
            },
    {
        let num_queues = self.virtio_state.queues.len();
        if let Err(error) = check_queue_count(num_queues, self.threaded) {
            return Err(error);
        }
        let mq_offered = has_feature(self.virtio_state.avail_features, VIRTIO_BLK_F_MQ);
        if mq_offered != (num_queues > 1) {
            return Err(VirtioBlockError::Persist(PersistError::InvalidInput));
        }
        if self.rate_limiter_states.len() != num_queues {
            return Err(VirtioBlockError::Persist(PersistError::InvalidInput));
        }
        Ok(())
    }
}

impl<Q, R> DataPathSnapshot<Q, R> {
    /// The states of the queues.
    pub open spec fn queues(self) -> Seq<Q> {
        match self {
            DataPathSnapshot::Device { queues, rate_limiters } => queues@,
            DataPathSnapshot::Workers(states) => states@.map_values(
                |state: SavedState<Q, R>| state.queue_state,
            ),
        }
    }

    /// The states of the rate limiters.
    pub open spec fn rate_limiters(self) -> Seq<R> {
        match self {
            DataPathSnapshot::Device { queues, rate_limiters } => rate_limiters@,
            DataPathSnapshot::Workers(states) => states@.map_values(
                |state: SavedState<Q, R>| state.rate_limiter_state,
            ),
        }
    }

    /// Whether it was collected from who holds the data path, and for each
    /// queue.
    pub open spec fn fits<T, A>(self, block: VirtioBlock<T, A>) -> bool {
        match self {
            DataPathSnapshot::Device { queues, rate_limiters } => {
                &&& block.holds_data_path()
                &&& queues@.len() == block.num_queues
                &&& rate_limiters@.len() == block.num_queues
            },
            DataPathSnapshot::Workers(states) => {
                &&& block.is_served_by_workers()
                &&& states@.len() == block.num_queues
            },
        }
    }
}

impl<T, A> VirtioBlock<T, A> {
    /// Whether `state` is the saved device, given what was collected of its data
    /// path. The backing file is that of the first queue.
    pub open spec fn saves_as<Q, R>(
        self,
        snapshot: DataPathSnapshot<Q, R>,
        state: VirtioBlockState<Q, R>,
    ) -> bool {
        &&& state.id == self.id
        &&& state.partuuid == self.partuuid
        &&& state.cache_type == self.cache_type
        &&& state.root_device == self.root_device
        &&& state.threaded == self.threaded
        &&& state.virtio_state.device_type == VirtioDeviceType::Block
        &&& state.virtio_state.avail_features == self.avail_features
        &&& state.virtio_state.acked_features == self.acked_features
        &&& state.virtio_state.activated == self.state is Active
        &&& state.virtio_state.queues@ == snapshot.queues()
        &&& state.rate_limiter_states@ == snapshot.rate_limiters()
        &&& match snapshot {
            DataPathSnapshot::Device { queues, rate_limiters } => {
                &&& state.disk_path == self.data_path()[0].disk.file_path
                &&& state.file_engine_type == saved_engine(self.data_path()[0].disk.file_engine)
            },
            DataPathSnapshot::Workers(states) => {
                &&& state.disk_path == states@[0].disk_path
                &&& state.file_engine_type == states@[0].file_engine_type
            },
        }
    }

    /// The work that comes before a device is saved: worker threads are asked
    /// for what they know. What they answer goes to `save`.
    pub fn snapshot_work(&self) -> (effects: Vec<DeviceEffect>)
        ensures
            effects@ == match self.state {
                BlockState::Active(ActiveBlock::Threaded(active)) => ask_each(
                    active.worker_handles@,
                    WorkerMessage::GetSavedState,
                ),
                _ => Seq::empty(),
            },
    {
        match &self.state {
            BlockState::Active(ActiveBlock::Threaded(active)) => message_to_each(
                &active.worker_handles,
                WorkerMessage::GetSavedState,
            ),
            _ => Vec::new(),
        }
    }

    /// Saves the device, given what was collected of its data path.
    pub fn save<Q, R>(&self, snapshot: DataPathSnapshot<Q, R>) -> (state: VirtioBlockState<Q, R>)
        requires
            self.wf(),
            snapshot.fits(*self),
        ensures
            self.saves_as(snapshot, state),
    {
        let (disk_path, rate_limiter_states, file_engine_type, queues) = match snapshot {
            DataPathSnapshot::Workers(states) => {
                let disk_path = states[0].disk_path.clone();
                let file_engine_type = states[0].file_engine_type;
                let (queues, rate_limiter_states) = split_states(states);
                (disk_path, rate_limiter_states, file_engine_type, queues)
            },
            DataPathSnapshot::Device { queues, rate_limiters } => (
                self.disk().file_path.clone(),
                rate_limiters,
                FileEngineTypeState::from(self.file_engine_type()),
                queues,
            ),
        };
        VirtioBlockState {
            id: self.id.clone(),
            partuuid: self.partuuid.clone(),
            cache_type: self.cache_type,
            root_device: self.root_device,
            disk_path,
            virtio_state: VirtioDeviceState {
                device_type: VirtioDeviceType::Block,
                avail_features: self.avail_features,
                acked_features: self.acked_features,
                queues,
                activated: self.is_activated(),
            },
            rate_limiter_states,
            file_engine_type,
            threaded: self.threaded,
        }
    }

    /// Whether the device is the restored one of a saved device. It holds its
    /// data path and is not active, even if the saved device was.
    pub open spec fn is_restored<Q, R>(
        self,
        state: VirtioBlockState<Q, R>,
        queues: Seq<RestoredQueue<T>>,
    ) -> bool {
        &&& self.wf()
        &&& self.avail_features == state.virtio_state.avail_features
        &&& self.acked_features == state.virtio_state.acked_features
        &&& self.id == state.id
        &&& self.partuuid == state.partuuid
        &&& self.cache_type == state.cache_type
        &&& self.root_device == state.root_device
        &&& self.read_only == state.read_only()
        &&& self.threaded == state.threaded
        &&& self.num_queues == state.num_queues()
        &&& self.state is Configuring
        &&& self.handles() == Seq::<WorkerHandle>::empty()
        &&& forall|i: int|
            0 <= i < state.num_queues() ==> is_fresh(
                #[trigger] self.data_path()[i],
                i,
                state.disk_path,
                restored_engine(state.file_engine_type),
                queues[i].image,
                queues[i].io->Ok_0,
            )
        &&& self.config_space.is_made_of(self.data_path()[0].disk.nsectors, self.num_queues)
    }

    /// What is made of a saved device, given whether its queues could be laid
    /// over guest memory, what the host made for each of them, up to the first
    /// that failed, and whether it made the activation event.
    pub open spec fn restored_from<Q, R>(
        state: VirtioBlockState<Q, R>,
        queues_built: Result<(), PersistError>,
        queues: Seq<RestoredQueue<T>>,
        activate_evt: Result<(), OsError>,
        result: Result<Self, VirtioBlockError>,
    ) -> bool {
        match state.error() {
            Some(error) => result == Err::<Self, VirtioBlockError>(error),
            None => match queues_built {
                Err(error) => result == Err::<Self, VirtioBlockError>(
                    VirtioBlockError::Persist(error),
                ),
                Ok(_) => match first_restore_error(queues, state.disk_path, queues.len() as int) {
                    Some(error) => result == Err::<Self, VirtioBlockError>(error),
                    None => match activate_evt {
                        Err(error) => result == Err::<Self, VirtioBlockError>(
                            VirtioBlockError::EventFd(error),
                        ),
                        Ok(_) => result matches Ok(block) && block.is_restored(state, queues),
                    },
                },
            },
        }
    }

    /// Makes a device of a saved one, given what the host made for each queue.
    /// Queues behind one that failed need not be there.
    pub fn restore<Q, R>(
        state: &VirtioBlockState<Q, R>,
        queues_built: Result<(), PersistError>,
        queues: Vec<RestoredQueue<T>>,
        activate_evt: Result<(), OsError>,
    ) -> (result: Result<Self, VirtioBlockError>)
        requires
            state.error() is None && queues_built is Ok ==> {
                &&& queues@.len() <= state.num_queues()
                &&& first_restore_error(queues@, state.disk_path, queues@.len() as int) is None
                    ==> queues@.len() == state.num_queues()
            },
        ensures
            Self::restored_from(*state, queues_built, queues@, activate_evt, result),
    {
        if let Err(error) = state.check() {
            return Err(error);
        }
        if let Err(error) = queues_built {
            return Err(VirtioBlockError::Persist(error));
        }
        let read_only = has_feature(state.virtio_state.avail_features, VIRTIO_BLK_F_RO);
        let num_queues: u16 = state.virtio_state.queues.len() as u16;
        let engine = FileEngineType::from(state.file_engine_type);
        let mut waiting = queues;
        let mut resources: Vec<BlockResources<T>> = Vec::new();
        let mut index: u16 = 0;
        while waiting.len() > 0
            invariant
                index <= queues@.len() <= num_queues,
                num_queues == state.num_queues(),
                state.error() is None,
                queues_built is Ok,
                engine == restored_engine(state.file_engine_type),
                waiting@ == queues@.skip(index as int),
                first_restore_error(queues@, state.disk_path, index as int) is None,
                resources@.len() == index,
                forall|i: int|
                    0 <= i < index ==> is_fresh(
                        #[trigger] resources@[i],
                        i,
                        state.disk_path,
                        engine,
                        queues@[i].image,
                        queues@[i].io->Ok_0,
                    ),
            decreases waiting@.len(),
        {
            let queue = waiting.remove(0);
            assert(queue == queues@[index as int]);
            assert(waiting@ =~= queues@.skip(index + 1));
            proof {
                lemma_first_restore_error_stays(
                    queues@,
                    state.disk_path,
                    index + 1,
                    queues@.len() as int,
                );
            }
            if let Err(error) = queue.event {
                return Err(VirtioBlockError::EventFd(error));
            }
            let disk = match DiskProperties::new(state.disk_path.clone(), engine, queue.image) {
                Ok(disk) => disk,
                Err(error) => return Err(error),
            };
            let io = match queue.io {
                Ok(io) => io,
                Err(error) => return Err(VirtioBlockError::RateLimiter(error)),
            };
            resources.push(
                BlockResources { io, queue_index: index, disk, is_io_engine_throttled: false },
            );
            index = index + 1;
        }
        if let Err(error) = activate_evt {
            return Err(VirtioBlockError::EventFd(error));
        }
        let capacity = resources[0].disk.nsectors;
        Ok(
            VirtioBlock {
                avail_features: state.virtio_state.avail_features,
                acked_features: state.virtio_state.acked_features,
                config_space: ConfigSpace::new(capacity, num_queues),
                id: state.id.clone(),
                partuuid: state.partuuid.clone(),
                cache_type: state.cache_type,
                root_device: state.root_device,
                read_only,
                threaded: state.threaded,
                num_queues,
                state: BlockState::Configuring(resources, Vec::new()),
            },
        )
    }
}

/// The states of the queues and of the rate limiters of worker threads.
fn split_states<Q, R>(states: Vec<SavedState<Q, R>>) -> (split: (Vec<Q>, Vec<R>))
    ensures
        split.0@ == states@.map_values(|state: SavedState<Q, R>| state.queue_state),
        split.1@ == states@.map_values(|state: SavedState<Q, R>| state.rate_limiter_state),
{
    let mut queues: Vec<Q> = Vec::new();
    let mut rate_limiters: Vec<R> = Vec::new();
    let mut waiting = states;
    while waiting.len() > 0
        invariant
            queues@.len() + waiting@.len() == states@.len(),
            rate_limiters@.len() == queues@.len(),
            waiting@ == states@.skip(queues@.len() as int),
            forall|i: int|
                0 <= i < queues@.len() ==> #[trigger] queues@[i] == states@[i].queue_state,
            forall|i: int|
                0 <= i < queues@.len() ==> #[trigger] rate_limiters@[i]
                    == states@[i].rate_limiter_state,
        decreases waiting@.len(),
    {
        let state = waiting.remove(0);
        queues.push(state.queue_state);
        rate_limiters.push(state.rate_limiter_state);
        assert(waiting@ =~= states@.skip(queues@.len() as int));
    }
    assert(queues@ =~= states@.map_values(|state: SavedState<Q, R>| state.queue_state));
    assert(rate_limiters@ =~= states@.map_values(
        |state: SavedState<Q, R>| state.rate_limiter_state,
    ));
    (queues, rate_limiters)
}

/// A device that was saved is never refused when it is restored.
pub proof fn law_saved_device_is_accepted<T, A, Q, R>(
    block: VirtioBlock<T, A>,
    snapshot: DataPathSnapshot<Q, R>,
    state: VirtioBlockState<Q, R>,
)
    requires
        block.wf(),
        snapshot.fits(block),
        block.saves_as(snapshot, state),
    ensures
        state.error() is None,
{
}

/// A device that was saved and restored is the same device: what it is, and what
/// the driver took of it. Its driver reads the same number of queues, and the same
/// number of sectors where the backing file has the size that the saved device
/// showed; the file is opened with the same access. Each queue has the file and the engine of the first
/// queue that was saved. The device is not active, and holds its data path
/// itself.
pub proof fn law_restore_gives_back_what_was_saved<T, A, Q, R>(
    block: VirtioBlock<T, A>,
    snapshot: DataPathSnapshot<Q, R>,
    state: VirtioBlockState<Q, R>,
    queues: Seq<RestoredQueue<T>>,
    restored: VirtioBlock<T, A>,
    i: int,
)
    requires
        block.wf(),
        snapshot.fits(block),
        block.saves_as(snapshot, state),
        restored.is_restored(state, queues),
        0 <= i < block.num_queues,
    ensures
        restored.same_device(block),
        restored.acked_features == block.acked_features,
        restored.state is Configuring,
        restored.data_path().len() == block.num_queues,
        restored.data_path()[i].queue_index == i,
        state.read_only() == block.read_only,
        restored.config_space.shown_queues() == block.num_queues,
        queues[0].image matches ImageReport::Opened { size, .. } && sector_count(size)
            == block.config_space.capacity ==> restored.config_space.is_made_of(
            block.config_space.capacity,
            block.num_queues,
        ),
        restored.data_path()[i].disk.file_path == state.disk_path,
        block.holds_data_path() ==> restored.data_path()[i].disk.file_path
            == block.data_path()[0].disk.file_path,
        block.holds_data_path() ==> restored.data_path()[i].disk.file_engine
            == block.data_path()[0].disk.file_engine,
        snapshot matches DataPathSnapshot::Workers(states) ==> {
            &&& restored.data_path()[i].disk.file_path == states@[0].disk_path
            &&& restored.data_path()[i].disk.file_engine == restored_engine(
                states@[0].file_engine_type,
            )
        },
{
    let resources = restored.data_path()[i];
    let first = restored.data_path()[0];
}

/// The engine of a device survives saving and restoring.
pub proof fn law_engine_survives(engine: FileEngineType, state: FileEngineTypeState)
    ensures
        restored_engine(saved_engine(engine)) == engine,
        saved_engine(restored_engine(state)) == state,
{
}

/// The file that is asked for when a saved device is restored has the saved path
/// and the saved engine. It is opened for reading, and for writing exactly if the
/// saved device did not offer to be read-only.
pub proof fn law_restored_file_follows_the_state<Q, R>(state: VirtioBlockState<Q, R>)
    ensures
        state.image_wanted().path == state.disk_path,
        state.image_wanted().engine is Async <==> state.file_engine_type is Async,
        state.image_wanted().access.read,
        state.image_wanted().access.write <==> !has_bit(state.virtio_state.avail_features, 5),
        state.read_only() <==> has_bit(state.virtio_state.avail_features, 5),
{
}

/// The file of a device that was saved is asked for again with the access and the
/// engine that the device had.
pub proof fn law_restored_file_has_the_access_of_the_device<T, A, Q, R>(
    block: VirtioBlock<T, A>,
    snapshot: DataPathSnapshot<Q, R>,
    state: VirtioBlockState<Q, R>,
)
    requires
        block.wf(),
        snapshot.fits(block),
        block.saves_as(snapshot, state),
    ensures
        state.image_wanted().access.read,
        state.image_wanted().access.write <==> !block.read_only,
        block.holds_data_path() ==> state.image_wanted().path
            == block.data_path()[0].disk.file_path,
        block.holds_data_path() ==> state.image_wanted().engine
            == block.data_path()[0].disk.file_engine,
        snapshot matches DataPathSnapshot::Workers(states) ==> {
            &&& state.image_wanted().path == states@[0].disk_path
            &&& state.image_wanted().engine is Async <==> states@[0].file_engine_type is Async
        },
{
}

/// Both conversions of an engine keep it.
pub proof fn law_engines_convert_to_themselves(engine: FileEngineType, state: FileEngineTypeState)
    ensures
        restored_engine(state) is Async <==> state is Async,
        <FileEngineTypeState as vstd::std_specs::convert::FromSpec<
            FileEngineType,
        >>::obeys_from_spec(),
        <FileEngineTypeState as vstd::std_specs::convert::FromSpec<FileEngineType>>::from_spec(
            engine,
        ) is Async <==> engine is Async,
        <FileEngineType as vstd::std_specs::convert::FromSpec<
            FileEngineTypeState,
        >>::obeys_from_spec(),
        <FileEngineType as vstd::std_specs::convert::FromSpec<FileEngineTypeState>>::from_spec(
            state,
        ) is Async <==> state is Async,
{
}

/// A saved device is accepted exactly if it has 1 to 32 queues, more than one only
/// with threads, offers several queues exactly if it has them, and has a rate
/// limiter for each. A wrong number of queues is named, all else is invalid.
pub proof fn law_which_saved_devices_are_accepted<Q, R>(state: VirtioBlockState<Q, R>)
    ensures
        ({
            let n = state.virtio_state.queues@.len() as int;
            let counted = n == 1 || (2 <= n <= 32 && state.threaded);
            let consistent = (has_bit(state.virtio_state.avail_features, 12) <==> n > 1)
                && state.rate_limiter_states@.len() == n;
            &&& state.error() is None <==> counted && consistent
            &&& counted && !consistent ==> state.error() == Some(
                VirtioBlockError::Persist(PersistError::InvalidInput),
            )
            &&& !counted ==> state.error() == queue_count_error(n, state.threaded)
        }),
{
    crate::device::law_which_queue_counts_are_accepted(
        state.virtio_state.queues@.len() as int,
        state.threaded,
    );
}

/// What is saved of queue `i` and of its rate limiter is what was collected of
/// them, whoever holds the data path.
pub proof fn law_snapshots_are_in_order<Q, R>(snapshot: DataPathSnapshot<Q, R>, i: int)
    ensures
        snapshot matches DataPathSnapshot::Device { queues, rate_limiters } ==> {
            &&& snapshot.queues() == queues@
            &&& snapshot.rate_limiters() == rate_limiters@
        },
        snapshot matches DataPathSnapshot::Workers(states) ==> {
            &&& snapshot.queues().len() == states@.len()
            &&& snapshot.rate_limiters().len() == states@.len()
            &&& 0 <= i < states@.len() ==> {
                &&& snapshot.queues()[i] == states@[i].queue_state
                &&& snapshot.rate_limiters()[i] == states@[i].rate_limiter_state
            }
        },
{
}

/// A saved device has the identity, the features and the flags of the device,
/// whether it was active, and what was collected of each queue.
pub proof fn law_what_is_saved<T, A, Q, R>(
    block: VirtioBlock<T, A>,
    snapshot: DataPathSnapshot<Q, R>,
    state: VirtioBlockState<Q, R>,
    i: int,
)
    requires
        block.wf(),
        snapshot.fits(block),
        block.saves_as(snapshot, state),
        0 <= i < block.num_queues,
    ensures
        state.id == block.id,
        state.partuuid == block.partuuid,
        state.cache_type == block.cache_type,
        state.root_device == block.root_device,
        state.threaded == block.threaded,
        state.virtio_state.device_type is Block,
        state.virtio_state.avail_features == block.avail_features,
        state.virtio_state.acked_features == block.acked_features,
        state.virtio_state.activated <==> block.state is Active,
        state.virtio_state.queues@.len() == block.num_queues,
        state.rate_limiter_states@.len() == block.num_queues,
        snapshot matches DataPathSnapshot::Device { queues, rate_limiters } ==> {
            &&& state.virtio_state.queues@[i] == queues@[i]
            &&& state.rate_limiter_states@[i] == rate_limiters@[i]
            &&& state.disk_path == block.data_path()[0].disk.file_path
            &&& state.file_engine_type is Async
                <==> block.data_path()[0].disk.file_engine is Async
        },
        snapshot matches DataPathSnapshot::Workers(states) ==> {
            &&& state.virtio_state.queues@[i] == states@[i].queue_state
            &&& state.rate_limiter_states@[i] == states@[i].rate_limiter_state
            &&& state.disk_path == states@[0].disk_path
            &&& state.file_engine_type == states@[0].file_engine_type
        },
{
    law_snapshots_are_in_order(snapshot, i);
}

/// A queue of a restored device is there exactly if its event could be made, its
/// file can be served and its rate limiter could be restored. The first of these
/// that failed is the error.
pub proof fn law_which_restored_queues_fail<T>(queue: RestoredQueue<T>, path: String)
    ensures
        queue.error(path) is None <==> {
            &&& queue.event is Ok
            &&& queue.image matches ImageReport::Opened { engine: Ok(_), .. }
            &&& queue.io is Ok
        },
        queue.event matches Err(error) ==> queue.error(path) == Some(
            VirtioBlockError::EventFd(error),
        ),
        queue.event is Ok && image_error(path, queue.image) is Some ==> queue.error(path)
            == image_error(path, queue.image),
        queue.event is Ok && image_error(path, queue.image) is None ==> (queue.io matches Err(error)
            ==> queue.error(path) == Some(VirtioBlockError::RateLimiter(error))),
{
}

/// Whether the queue of a number is the first of a restored device that is not
/// there.
pub open spec fn fails_first_of_restored<T>(
    queues: Seq<RestoredQueue<T>>,
    path: String,
    i: int,
) -> bool {
    &&& 0 <= i < queues.len()
    &&& queues[i].error(path) is Some
    &&& forall|j: int| 0 <= j < i ==> (#[trigger] queues[j]).error(path) is None
}

proof fn lemma_restore_errors<T>(queues: Seq<RestoredQueue<T>>, path: String, n: int)
    requires
        0 <= n <= queues.len(),
    ensures
        first_restore_error(queues, path, n) is None <==> forall|j: int|
            0 <= j < n ==> (#[trigger] queues[j]).error(path) is None,
    decreases n,
{
    if n > 0 {
        lemma_restore_errors(queues, path, n - 1);
        if first_restore_error(queues, path, n - 1) is Some {
            let j = choose|j: int| 0 <= j < n - 1 && !((#[trigger] queues[j]).error(path) is None);
            assert(0 <= j < n && !(queues[j].error(path) is None));
        } else {
            assert(first_restore_error(queues, path, n) == queues[n - 1].error(path));
        }
    }
}

/// A saved device is restored exactly if it is accepted, its queues fit guest
/// memory, each of them is there, and its activation event could be made. The
/// first of these that fails is the error.
pub proof fn law_when_a_device_is_restored<T, A, Q, R>(
    state: VirtioBlockState<Q, R>,
    queues_built: Result<(), PersistError>,
    queues: Seq<RestoredQueue<T>>,
    activate_evt: Result<(), OsError>,
    result: Result<VirtioBlock<T, A>, VirtioBlockError>,
    i: int,
)
    requires
        VirtioBlock::restored_from(state, queues_built, queues, activate_evt, result),
    ensures
        result is Ok <==> {
            &&& state.error() is None
            &&& queues_built is Ok
            &&& forall|j: int| 0 <= j < queues.len() ==> (#[trigger] queues[j]).error(
                state.disk_path,
            ) is None
            &&& activate_evt is Ok
        },
        state.error() matches Some(error) ==> result == Err::<VirtioBlock<T, A>, VirtioBlockError>(
            error,
        ),
        state.error() is None ==> (queues_built matches Err(error) ==> result
            == Err::<VirtioBlock<T, A>, VirtioBlockError>(VirtioBlockError::Persist(error))),
        state.error() is None && queues_built is Ok && fails_first_of_restored(
            queues,
            state.disk_path,
            i,
        ) ==> result == Err::<VirtioBlock<T, A>, VirtioBlockError>(
            queues[i].error(state.disk_path)->Some_0,
        ),
        result matches Ok(block) ==> block.is_restored(state, queues),
{
    lemma_restore_errors(queues, state.disk_path, queues.len() as int);
    if fails_first_of_restored(queues, state.disk_path, i) {
        lemma_restore_errors(queues, state.disk_path, i);
        lemma_first_restore_error_stays(queues, state.disk_path, i + 1, queues.len() as int);
    }
}

/// A restored device has the identity, the features and the flags that were
/// saved. It holds its data path and has no threads. Each queue has what the host
/// made for it, and the whole sectors of the file that was found at the saved
/// path.
pub proof fn law_what_a_restored_device_is<T, A, Q, R>(
    block: VirtioBlock<T, A>,
    state: VirtioBlockState<Q, R>,
    queues: Seq<RestoredQueue<T>>,
    i: int,
)
    requires
        block.is_restored(state, queues),
        0 <= i < state.num_queues(),
    ensures
        block.id == state.id,
        block.partuuid == state.partuuid,
        block.cache_type == state.cache_type,
        block.root_device == state.root_device,
        block.threaded == state.threaded,
        block.avail_features == state.virtio_state.avail_features,
        block.acked_features == state.virtio_state.acked_features,
        block.read_only <==> has_bit(state.virtio_state.avail_features, 5),
        block.num_queues == state.virtio_state.queues@.len(),
        block.state matches BlockState::Configuring(resources, handles) && resources@.len()
            == block.num_queues && handles@.len() == 0,
        ({
            let resources = block.state->Configuring_0@[i];
            &&& resources.io == queues[i].io->Ok_0
            &&& resources.queue_index == i
            &&& !resources.is_io_engine_throttled
            &&& resources.disk.file_path == state.disk_path
            &&& resources.disk.file_engine is Async <==> state.file_engine_type is Async
            &&& queues[i].image is Opened
            &&& 512 * resources.disk.nsectors <= queues[i].image->size < 512 * (
            resources.disk.nsectors + 1)
            &&& resources.disk.image_id@ == crate::disk::disk_image_id(queues[i].image->metadata)
        }),
        block.config_space.capacity == block.state->Configuring_0@[0].disk.nsectors,
        block.config_space.shown_queues() == block.num_queues,
{
    assert(is_fresh(
        block.data_path()[i],
        i,
        state.disk_path,
        restored_engine(state.file_engine_type),
        queues[i].image,
        queues[i].io->Ok_0,
    ));
}

/// A device can be saved with what was collected from who holds its data path,
/// one state for each queue.
pub proof fn law_which_snapshots_fit<T, A, Q, R>(
    block: VirtioBlock<T, A>,
    snapshot: DataPathSnapshot<Q, R>,
)
    ensures
        snapshot.fits(block) <==> {
            &&& snapshot is Device <==> block.holds_data_path()
            &&& snapshot is Workers <==> block.is_served_by_workers()
            &&& snapshot.queues().len() == block.num_queues
            &&& snapshot.rate_limiters().len() == block.num_queues
        },
{
}

} // verus!
