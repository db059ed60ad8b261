//! The block device itself: who owns its data path, and what follows from what
//! the transport, the driver and the user ask of it.

use vstd::prelude::*;

use crate::config::{CacheType, FileEngineType};
use crate::config::VirtioBlockConfig;
use crate::config_space::ConfigSpace;
use crate::disk::{DiskProperties, ImageReport};
use crate::error::{OsError, VirtioBlockError};
use crate::features::{has_bit, offered, offered_features};
use crate::handle::WorkerHandle;
use crate::resources::{BlockResources, QueueConfig};
use crate::virtio::{MAX_SUPPORTED_VCPUS, VIRTIO_BLK_F_MQ, VIRTIO_BLK_F_RO};
use crate::worker::BlockWorker;

verus! {

/// A block device: what it is, and where its data path is.
#[derive(Debug)]
pub struct VirtioBlock<T, A> {
    /// Features that the device offers.
    pub avail_features: u64,
    /// Features that the driver took.
    pub acked_features: u64,
    /// What the driver reads of the device.
    pub config_space: ConfigSpace,
    /// Unique identifier of the drive.
    pub id: String,
    /// Identifier of the boot partition.
    pub partuuid: Option<String>,
    /// Whether flush requests are offered.
    pub cache_type: CacheType,
    /// Whether the drive is the root device.
    pub root_device: bool,
    /// Whether the backing file is opened for reading only.
    pub read_only: bool,
    /// Whether each queue is served by a worker thread.
    pub threaded: bool,
    /// Number of request queues.
    pub num_queues: u16,
    /// Where the data path is.
    pub state: BlockState<T, A>,
}

/// Where the data path of a device is.
#[derive(Debug)]
pub enum BlockState<T, A> {
    /// With the device, which the transport configures. The worker threads, if
    /// they were started, have nothing to do.
    Configuring(Vec<BlockResources<T>>, Vec<WorkerHandle>),
    /// With who serves it.
    Active(ActiveBlock<T, A>),
    /// Nowhere: an activation failed, or the device was torn down.
    Placeholder,
}

/// Who serves the data path.
#[derive(Debug)]
pub enum ActiveBlock<T, A> {
    /// The device, on the thread of its caller.
    Inline(InlineActive<T, A>),
    /// Worker threads, one for each queue.
    Threaded(ThreadedActive),
}

/// A device that serves its only queue itself.
#[derive(Debug)]
pub struct InlineActive<T, A> {
    /// Who serves the queue.
    pub worker: BlockWorker<T, A>,
    /// The queues as they were activated.
    pub queue_cfg: Vec<QueueConfig>,
}

/// A device whose queues are served by worker threads.
#[derive(Debug)]
pub struct ThreadedActive {
    /// The threads, in the order of the queues.
    pub worker_handles: Vec<WorkerHandle>,
    /// The queues as they were activated.
    pub queue_cfg: Vec<QueueConfig>,
}

/// What the host made for a queue of a new device.
#[derive(Debug)]
pub struct NewQueue<T> {
    /// What it found at the path of the backing file.
    pub image: ImageReport,
    /// What it keeps for the queue, or why the queue event could not be made. It
    /// is not looked at where the file cannot be served.
    pub io: Result<T, OsError>,
}

/// Why a number of queues is not accepted.
pub open spec fn queue_count_error(num_queues: int, threaded: bool) -> Option<VirtioBlockError> {
    if !(1 <= num_queues <= MAX_SUPPORTED_VCPUS) {
        Some(
            VirtioBlockError::InvalidQueueCount(
                if num_queues <= u16::MAX {
                    num_queues as u16
                } else {
                    u16::MAX
                },
                MAX_SUPPORTED_VCPUS as u16,
            ),
        )
    } else if num_queues > 1 && !threaded {
        Some(VirtioBlockError::MultiqueueRequiresThreaded)
    } else {
        None
    }
}

/// Accepts from one queue to the largest number, and more than one only with
/// worker threads.
pub fn check_queue_count(num_queues: usize, threaded: bool) -> (result: Result<
    (),
    VirtioBlockError,
>)
    ensures
        result == match queue_count_error(num_queues as int, threaded) {
            Some(error) => Err(error),
            None => Ok(()),
        },
{
    let max_queues: usize = MAX_SUPPORTED_VCPUS as usize;
    if num_queues < 1 || num_queues > max_queues {
        let shown: u16 = if num_queues <= u16::MAX as usize {
            num_queues as u16
        } else {
            u16::MAX
        };
        return Err(VirtioBlockError::InvalidQueueCount(shown, MAX_SUPPORTED_VCPUS as u16));
    }
    if num_queues > 1 && !threaded {
        return Err(VirtioBlockError::MultiqueueRequiresThreaded);
    }
    Ok(())
}

/// Why the file that the host found cannot be served.
pub open spec fn image_error(path: String, image: ImageReport) -> Option<VirtioBlockError> {
    match image {
        ImageReport::Failed(error) => Some(VirtioBlockError::BackingFile(error, path)),
        ImageReport::Opened { size, metadata, engine } => match engine {
            Err(error) => Some(VirtioBlockError::FileEngine(error)),
            Ok(_) => None,
        },
    }
}

impl<T> NewQueue<T> {
    /// Why there is no such queue: first the backing file, then the event.
    pub open spec fn error(self, path: String) -> Option<VirtioBlockError> {
        match image_error(path, self.image) {
            Some(error) => Some(error),
            None => match self.io {
                Err(error) => Some(VirtioBlockError::EventFd(error)),
                Ok(_) => None,
            },
        }
    }
}

/// The first error among the first `n` queues of a new device.
pub open spec fn first_new_error<T>(
    queues: Seq<NewQueue<T>>,
    path: String,
    n: int,
) -> Option<VirtioBlockError>
    decreases n,
{
    if n <= 0 {
        None
    } else {
        match first_new_error(queues, path, n - 1) {
            Some(error) => Some(error),
            None => queues[n - 1].error(path),
        }
    }
}

/// Whether resources are those of a queue that was just made for the file that
/// the host found at `path`.
pub open spec fn is_fresh<T>(
    resources: BlockResources<T>,
    queue_index: int,
    path: String,
    engine: FileEngineType,
    image: ImageReport,
    io: T,
) -> bool {
    &&& resources.io == io
    &&& resources.queue_index == queue_index
    &&& !resources.is_io_engine_throttled
    &&& image matches ImageReport::Opened { size, metadata, .. } && resources.disk.describes(
        path,
        engine,
        size,
        metadata,
    )
}

/// Whether resources are in the order of their queues.
pub open spec fn in_queue_order<T>(resources: Seq<BlockResources<T>>) -> bool {
    forall|i: int| 0 <= i < resources.len() ==> (#[trigger] resources[i]).queue_index == i
}

/// Whether worker threads are in the order of their queues.
pub open spec fn handles_in_order(handles: Seq<WorkerHandle>) -> bool {
    forall|i: int| 0 <= i < handles.len() ==> (#[trigger] handles[i]).queue_index == i
}

impl<T, A> VirtioBlock<T, A> {
    /// What holds of every device.
    pub open spec fn wf(self) -> bool {
        &&& 1 <= self.num_queues <= MAX_SUPPORTED_VCPUS
        &&& self.num_queues > 1 ==> self.threaded
        &&& has_bit(self.avail_features, VIRTIO_BLK_F_RO) == self.read_only
        &&& has_bit(self.avail_features, VIRTIO_BLK_F_MQ) == (self.num_queues > 1)
        &&& self.config_space.shows_queues() == (self.num_queues > 1)
        &&& match self.state {
            BlockState::Configuring(resources, handles) => {
                &&& resources@.len() == self.num_queues
                &&& in_queue_order(resources@)
                &&& handles@.len() == 0 || handles@.len() == self.num_queues
                &&& handles_in_order(handles@)
            },
            BlockState::Active(ActiveBlock::Inline(active)) => {
                &&& !self.threaded
                &&& active.worker.resources.queue_index == 0
                &&& active.queue_cfg@.len() == self.num_queues
            },
            BlockState::Active(ActiveBlock::Threaded(active)) => {
                &&& self.threaded
                &&& active.worker_handles@.len() == self.num_queues
                &&& handles_in_order(active.worker_handles@)
                &&& active.queue_cfg@.len() == self.num_queues
            },
            BlockState::Placeholder => true,
        }
    }

    /// Whether the device holds its data path itself.
    pub open spec fn holds_data_path(self) -> bool {
        self.state is Configuring || self.is_inline()
    }

    /// Whether the device serves its queue itself.
    pub open spec fn is_inline(self) -> bool {
        self.state matches BlockState::Active(ActiveBlock::Inline(_))
    }

    /// Whether worker threads serve the queues.
    pub open spec fn is_served_by_workers(self) -> bool {
        self.state matches BlockState::Active(ActiveBlock::Threaded(_))
    }

    /// The data path that the device holds, in the order of the queues.
    pub open spec fn data_path(self) -> Seq<BlockResources<T>> {
        match self.state {
            BlockState::Configuring(resources, _) => resources@,
            BlockState::Active(ActiveBlock::Inline(active)) => seq![active.worker.resources],
            _ => seq![],
        }
    }

    /// The worker threads that the device knows.
    pub open spec fn handles(self) -> Seq<WorkerHandle> {
        match self.state {
            BlockState::Configuring(_, handles) => handles@,
            BlockState::Active(ActiveBlock::Threaded(active)) => active.worker_handles@,
            _ => seq![],
        }
    }

    /// Whether the data path of `after` is where that of this device is, and what
    /// came with the activation is the same.
    pub open spec fn keeps_owner(self, after: Self) -> bool {
        match self.state {
            BlockState::Configuring(_, handles) => after.state matches BlockState::Configuring(
                _,
                kept,
            ) && kept@ == handles@,
            BlockState::Active(ActiveBlock::Inline(active)) => {
                &&& after.state matches BlockState::Active(ActiveBlock::Inline(kept))
                &&& kept.queue_cfg == active.queue_cfg
                &&& kept.worker.active_state == active.worker.active_state
            },
            _ => after.state == self.state,
        }
    }

    /// The device without its data path and what the driver took of it.
    pub open spec fn same_device(self, other: Self) -> bool {
        &&& self.avail_features == other.avail_features
        &&& self.id == other.id
        &&& self.partuuid == other.partuuid
        &&& self.cache_type == other.cache_type
        &&& self.root_device == other.root_device
        &&& self.read_only == other.read_only
        &&& self.threaded == other.threaded
        &&& self.num_queues == other.num_queues
    }

    /// What is made of a configuration, given what the host made for each queue,
    /// up to the first that failed, and whether it made the activation event.
    pub open spec fn made_from(
        config: VirtioBlockConfig,
        queues: Seq<NewQueue<T>>,
        activate_evt: Result<(), OsError>,
        result: Result<Self, VirtioBlockError>,
    ) -> bool {
        match queue_count_error(config.num_queues as int, config.threaded) {
            Some(error) => result == Err::<Self, VirtioBlockError>(error),
            None => match first_new_error(queues, config.path_on_host, queues.len() as int) {
                Some(error) => result == Err::<Self, VirtioBlockError>(error),
                None => match activate_evt {
                    Err(error) => result == Err::<Self, VirtioBlockError>(
                        VirtioBlockError::EventFd(error),
                    ),
                    Ok(_) => result matches Ok(block) && block.is_new(config, queues),
                },
            },
        }
    }

    /// Whether the device is the new one of a configuration.
    pub open spec fn is_new(self, config: VirtioBlockConfig, queues: Seq<NewQueue<T>>) -> bool {
        &&& self.wf()
        &&& self.avail_features == offered(
            config.cache_type,
            config.is_read_only,
            config.num_queues > 1,
        )
        &&& self.acked_features == 0
        &&& self.id == config.drive_id
        &&& self.partuuid == config.partuuid
        &&& self.cache_type == config.cache_type
        &&& self.root_device == config.is_root_device
        &&& self.read_only == config.is_read_only
        &&& self.threaded == config.threaded
        &&& self.num_queues == config.num_queues
        &&& self.state is Configuring
        &&& self.handles() == Seq::<WorkerHandle>::empty()
        &&& forall|i: int|
            0 <= i < config.num_queues ==> is_fresh(
                #[trigger] self.data_path()[i],
                i,
                config.path_on_host,
                config.file_engine_type,
                queues[i].image,
                queues[i].io->Ok_0,
            )
        &&& self.config_space.is_made_of(self.data_path()[0].disk.nsectors, config.num_queues)
    }

    /// Makes a device of its configuration, given what the host made for each
    /// queue. Queues behind one that failed need not be there. The device has its data path itself, and
    /// shows the size of its backing file.
    pub fn new(
        config: VirtioBlockConfig,
        queues: Vec<NewQueue<T>>,
        activate_evt: Result<(), OsError>,
    ) -> (result: Result<Self, VirtioBlockError>)
        requires
            queue_count_error(config.num_queues as int, config.threaded) is None ==> {
                &&& queues@.len() <= config.num_queues
                &&& first_new_error(queues@, config.path_on_host, queues@.len() as int) is None
                    ==> queues@.len() == config.num_queues
            },
        ensures
            Self::made_from(config, queues@, activate_evt, result),
    {
        check_queue_count(config.num_queues as usize, config.threaded)?;
        let ghost made = queues@;
        let mut waiting = queues;
        let mut resources: Vec<BlockResources<T>> = Vec::new();
        let mut index: u16 = 0;
        while waiting.len() > 0
            invariant
                index <= made.len() <= config.num_queues <= MAX_SUPPORTED_VCPUS,
                made == queues@,
                queue_count_error(config.num_queues as int, config.threaded) is None,
                waiting@ == made.skip(index as int),
                first_new_error(made, config.path_on_host, index as int) is None,
                resources@.len() == index,
                forall|i: int|
                    0 <= i < index ==> is_fresh(
                        #[trigger] resources@[i],
                        i,
                        config.path_on_host,
                        config.file_engine_type,
                        made[i].image,
                        made[i].io->Ok_0,
                    ),
            decreases waiting@.len(),
        {
            let queue = waiting.remove(0);
            assert(queue == made[index as int]);
            assert(waiting@ =~= made.skip(index + 1));
            proof {
                lemma_first_new_error_stays(
                    made,
                    config.path_on_host,
                    index + 1,
                    made.len() as int,
                );
            }
            let disk = match DiskProperties::new(
                config.path_on_host.clone(),
                config.file_engine_type,
                queue.image,
            ) {
                Ok(disk) => disk,
                Err(error) => return Err(error),
            };
            let io = match queue.io {
                Ok(io) => io,
                Err(error) => return Err(VirtioBlockError::EventFd(error)),
            };
            resources.push(
                BlockResources { io, queue_index: index, disk, is_io_engine_throttled: false },
            );
            index = index + 1;
        }
        if let Err(error) = activate_evt {
            return Err(VirtioBlockError::EventFd(error));
        }
        let avail_features = offered_features(
            config.cache_type,
            config.is_read_only,
            config.num_queues > 1,
        );
        proof {
            crate::features::law_offered_features(
                config.cache_type,
                config.is_read_only,
                config.num_queues > 1,
                VIRTIO_BLK_F_RO,
            );
            crate::features::law_offered_features(
                config.cache_type,
                config.is_read_only,
                config.num_queues > 1,
                VIRTIO_BLK_F_MQ,
            );
        }
        let capacity = resources[0].disk.nsectors;
        Ok(
            VirtioBlock {
                avail_features,
                acked_features: 0,
                config_space: ConfigSpace::new(capacity, config.num_queues),
                id: config.drive_id,
                partuuid: config.partuuid,
                cache_type: config.cache_type,
                root_device: config.is_root_device,
                read_only: config.is_read_only,
                threaded: config.threaded,
                num_queues: config.num_queues,
                state: BlockState::Configuring(resources, Vec::new()),
            },
        )
    }
}

/// An error among the first queues is the first of all of them.
proof fn lemma_first_new_error_stays<T>(
    queues: Seq<NewQueue<T>>,
    path: String,
    n: int,
    m: int,
)
    requires
        0 <= n <= m,
    ensures
        first_new_error(queues, path, n) is Some ==> first_new_error(queues, path, m)
            == first_new_error(queues, path, n),
    decreases m - n,
{
    if n < m {
        lemma_first_new_error_stays(queues, path, n, m - 1);
    }
}

/// A number of queues is accepted exactly from 1 to 32, and above 1 only with
/// worker threads. What is out of range is named with the limit.
pub proof fn law_which_queue_counts_are_accepted(num_queues: int, threaded: bool)
    requires
        0 <= num_queues,
    ensures
        queue_count_error(num_queues, threaded) is None <==> num_queues == 1 || (2 <= num_queues
            <= 32 && threaded),
        2 <= num_queues <= 32 && !threaded ==> queue_count_error(num_queues, threaded) == Some(
            VirtioBlockError::MultiqueueRequiresThreaded,
        ),
        num_queues == 0 || num_queues > 32 ==> {
            &&& queue_count_error(num_queues, threaded) matches Some(
                VirtioBlockError::InvalidQueueCount(shown, max),
            )
            &&& max == 32
            &&& num_queues <= 65535 ==> shown == num_queues
            &&& num_queues > 65535 ==> shown == 65535
        },
{
}

/// A file can be served exactly if it was opened and its engine took it. The
/// error of a file that was not opened names its path.
pub proof fn law_which_images_fail(path: String, image: ImageReport)
    ensures
        image_error(path, image) is None <==> image matches ImageReport::Opened {
            engine: Ok(_),
            ..
        },
        image matches ImageReport::Failed(error) ==> image_error(path, image) == Some(
            VirtioBlockError::BackingFile(error, path),
        ),
        image matches ImageReport::Opened { engine: Err(error), .. } ==> image_error(path, image)
            == Some(VirtioBlockError::FileEngine(error)),
{
}

/// A queue of a new device is there exactly if its file can be served and its
/// event could be made. The error of the file comes first.
pub proof fn law_which_new_queues_fail<T>(queue: NewQueue<T>, path: String)
    ensures
        queue.error(path) is None <==> (queue.image matches ImageReport::Opened { engine: Ok(_), .. })
            && queue.io is Ok,
        image_error(path, queue.image) is Some ==> queue.error(path) == image_error(
            path,
            queue.image,
        ),
        image_error(path, queue.image) is None ==> (queue.io matches Err(error) ==> queue.error(
            path,
        ) == Some(VirtioBlockError::EventFd(error))),
{
}

/// Whether the queue of a number is the first of a new device that is not there.
pub open spec fn fails_first_of_new<T>(queues: Seq<NewQueue<T>>, path: String, i: int) -> bool {
    &&& 0 <= i < queues.len()
    &&& queues[i].error(path) is Some
    &&& forall|j: int| 0 <= j < i ==> (#[trigger] queues[j]).error(path) is None
}

/// The error of the queues of a new device is that of the first queue that is not
/// there. There is none exactly if all are.
pub proof fn law_first_error_of_new_queues<T>(queues: Seq<NewQueue<T>>, path: String, i: int)
    ensures
        first_new_error(queues, path, queues.len() as int) is None <==> forall|j: int|
            0 <= j < queues.len() ==> (#[trigger] queues[j]).error(path) is None,
        fails_first_of_new(queues, path, i) ==> first_new_error(queues, path, queues.len() as int)
            == queues[i].error(path),
{
    lemma_first_new_error(queues, path, queues.len() as int);
    if fails_first_of_new(queues, path, i) {
        lemma_first_new_error(queues, path, i);
        lemma_first_new_error_stays(queues, path, i + 1, queues.len() as int);
    }
}

proof fn lemma_first_new_error<T>(queues: Seq<NewQueue<T>>, path: String, n: int)
    requires
        0 <= n <= queues.len(),
    ensures
        first_new_error(queues, path, n) is None <==> forall|j: int|
            0 <= j < n ==> (#[trigger] queues[j]).error(path) is None,
    decreases n,
{
    if n > 0 {
        lemma_first_new_error(queues, path, n - 1);
        if first_new_error(queues, path, n - 1) is Some {
            let j = choose|j: int| 0 <= j < n - 1 && !((#[trigger] queues[j]).error(path) is None);
            assert(0 <= j < n && !(queues[j].error(path) is None));
        } else {
            assert(first_new_error(queues, path, n) == queues[n - 1].error(path));
        }
    }
}

/// A device is made exactly if its number of queues is accepted, each of its
/// queues is there, and its activation event could be made. The first of these
/// that fails is the error.
pub proof fn law_when_a_device_is_made<T, A>(
    config: VirtioBlockConfig,
    queues: Seq<NewQueue<T>>,
    activate_evt: Result<(), OsError>,
    result: Result<VirtioBlock<T, A>, VirtioBlockError>,
    i: int,
)
    requires
        VirtioBlock::made_from(config, queues, activate_evt, result),
    ensures
        result is Ok <==> {
            &&& config.num_queues == 1 || (2 <= config.num_queues <= 32 && config.threaded)
            &&& forall|j: int| 0 <= j < queues.len() ==> (#[trigger] queues[j]).error(
                config.path_on_host,
            ) is None
            &&& activate_evt is Ok
        },
        queue_count_error(config.num_queues as int, config.threaded) matches Some(error) ==> result
            == Err::<VirtioBlock<T, A>, VirtioBlockError>(error),
        queue_count_error(config.num_queues as int, config.threaded) is None && fails_first_of_new(
            queues,
            config.path_on_host,
            i,
        ) ==> result == Err::<VirtioBlock<T, A>, VirtioBlockError>(
            queues[i].error(config.path_on_host)->Some_0,
        ),
        result matches Ok(block) ==> block.is_new(config, queues),
{
    law_which_queue_counts_are_accepted(config.num_queues as int, config.threaded);
    law_first_error_of_new_queues(queues, config.path_on_host, i);
}

/// A new device has the identity and the flags of its configuration. It holds its
/// data path, has no threads, and the driver took none of its features. Each queue
/// has what the host made for it, the file of the configuration under its engine,
/// and the whole sectors of that file.
pub proof fn law_what_a_new_device_is<T, A>(
    block: VirtioBlock<T, A>,
    config: VirtioBlockConfig,
    queues: Seq<NewQueue<T>>,
    i: int,
    feature: u32,
)
    requires
        block.is_new(config, queues),
        0 <= i < config.num_queues,
        feature < 64,
    ensures
        block.id == config.drive_id,
        block.partuuid == config.partuuid,
        block.cache_type == config.cache_type,
        block.root_device == config.is_root_device,
        block.read_only == config.is_read_only,
        block.threaded == config.threaded,
        block.num_queues == config.num_queues,
        block.acked_features == 0,
        block.state matches BlockState::Configuring(resources, handles) && resources@.len()
            == config.num_queues && handles@.len() == 0,
        has_bit(block.avail_features, feature) <==> {
            ||| feature == 32
            ||| feature == 29
            ||| feature == 9 && config.cache_type is Writeback
            ||| feature == 5 && config.is_read_only
            ||| feature == 12 && config.num_queues > 1
        },
        ({
            let resources = block.state->Configuring_0@[i];
            &&& resources.io == queues[i].io->Ok_0
            &&& resources.queue_index == i
            &&& !resources.is_io_engine_throttled
            &&& resources.disk.file_path == config.path_on_host
            &&& resources.disk.file_engine == config.file_engine_type
            &&& queues[i].image is Opened
            &&& 512 * resources.disk.nsectors <= queues[i].image->size < 512 * (
            resources.disk.nsectors + 1)
            &&& resources.disk.image_id@ == crate::disk::disk_image_id(queues[i].image->metadata)
        }),
        block.config_space.capacity == block.state->Configuring_0@[0].disk.nsectors,
        block.config_space.shown_queues() == config.num_queues,
{
    crate::features::law_offered_features(
        config.cache_type,
        config.is_read_only,
        config.num_queues > 1,
        feature,
    );
    assert(is_fresh(
        block.data_path()[i],
        i,
        config.path_on_host,
        config.file_engine_type,
        queues[i].image,
        queues[i].io->Ok_0,
    ));
}

/// The device holds its data path before it is active, and where it serves its
/// queue itself. It knows its threads before it is active, and where they serve
/// the queues.
pub proof fn law_where_the_data_path_is<T, A>(block: VirtioBlock<T, A>)
    ensures
        block.state matches BlockState::Configuring(resources, handles) ==> {
            &&& block.data_path() == resources@
            &&& block.handles() == handles@
            &&& block.holds_data_path()
        },
        block.state matches BlockState::Active(ActiveBlock::Inline(active)) ==> {
            &&& block.data_path() == seq![active.worker.resources]
            &&& block.handles().len() == 0
            &&& block.holds_data_path()
        },
        block.state matches BlockState::Active(ActiveBlock::Threaded(active)) ==> {
            &&& block.data_path().len() == 0
            &&& block.handles() == active.worker_handles@
            &&& !block.holds_data_path()
        },
        block.state is Placeholder ==> !block.holds_data_path(),
        block.is_inline() <==> block.state is Active && block.holds_data_path(),
        block.is_served_by_workers() <==> block.state is Active && !block.holds_data_path(),
{
}

/// Every device has 1 to 32 queues, more than one only with threads, and offers
/// to be read-only and to have several queues exactly if it is and does. Its
/// queues and threads are in order, and it shows its driver the number of queues
/// exactly if there are several.
pub proof fn law_what_holds_of_every_device<T, A>(block: VirtioBlock<T, A>, i: int)
    requires
        block.wf(),
    ensures
        1 <= block.num_queues <= 32,
        block.num_queues > 1 ==> block.threaded,
        has_bit(block.avail_features, 5) <==> block.read_only,
        has_bit(block.avail_features, 12) <==> block.num_queues > 1,
        block.config_space.multiqueue is Some <==> block.num_queues > 1,
        block.holds_data_path() ==> block.data_path().len() == block.num_queues,
        0 <= i < block.data_path().len() ==> block.data_path()[i].queue_index == i,
        0 <= i < block.handles().len() ==> block.handles()[i].queue_index == i,
        block.is_served_by_workers() ==> block.threaded && block.handles().len()
            == block.num_queues,
        block.is_inline() ==> !block.threaded && block.num_queues == 1,
{
    if block.is_inline() {
        assert(block.data_path().len() == 1);
    }
}

/// A device that keeps its owner stays active or not, with the same threads, and
/// with what came with its activation.
pub proof fn law_owner_is_kept<T, A>(before: VirtioBlock<T, A>, after: VirtioBlock<T, A>)
    requires
        before.keeps_owner(after),
    ensures
        after.state is Active <==> before.state is Active,
        after.state is Configuring <==> before.state is Configuring,
        after.is_inline() <==> before.is_inline(),
        after.handles() == before.handles(),
        before.is_inline() ==> {
            let (a, b) = (before.state->Active_0->Inline_0, after.state->Active_0->Inline_0);
            a.queue_cfg == b.queue_cfg && a.worker.active_state == b.worker.active_state
        },
        !before.holds_data_path() ==> after.state == before.state,
{
}

} // verus!
