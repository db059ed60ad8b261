use virtio_block::config::{
    CacheType, FileEngineType, RateLimiterConfig, TokenBucketConfig, VirtioBlockConfig,
};
use virtio_block::device::{NewQueue, VirtioBlock};
use virtio_block::device_ops::{DeviceEffect, WorkerMessage};
use virtio_block::disk::{FileIdentity, ImageReport, OpenAccess};
use virtio_block::error::{OsError, PersistError, QueueError, VirtioBlockError};
use virtio_block::handle::WorkerHandle;
use virtio_block::persist::{
    DataPathSnapshot, FileEngineTypeState, RestoredQueue, VirtioBlockState,
};
use virtio_block::resources::QueueConfig;
use virtio_block::threaded::{ControlMsg, ThreadedWorker};
use virtio_block::virtio::{VirtioDeviceType, VIRTIO_BLK_F_MQ};

/// The simulated host side of a queue: its size, and what its rate limiter has
/// left.
#[derive(Clone, Debug, PartialEq)]
struct Io {
    queue: u16,
    budget: Option<u64>,
}

type Block = VirtioBlock<Io, u32>;
type State = VirtioBlockState<u16, Option<u64>>;

fn image() -> ImageReport {
    ImageReport::Opened {
        size: 0x1000,
        metadata: Ok(FileIdentity { dev: 1, rdev: 2, ino: 3 }),
        engine: Ok(()),
    }
}

fn two_queue_config() -> VirtioBlockConfig {
    VirtioBlockConfig {
        drive_id: "test".to_string(),
        path_on_host: "disk".to_string(),
        is_root_device: false,
        partuuid: None,
        is_read_only: false,
        threaded: true,
        num_queues: 2,
        cache_type: CacheType::Unsafe,
        rate_limiter: None,
        file_engine_type: FileEngineType::default(),
    }
}

fn make(config: VirtioBlockConfig) -> Block {
    let budget = config
        .rate_limiter
        .and_then(|limiter| limiter.bandwidth)
        .map(|bucket| bucket.size);
    let queues = (0..config.num_queues)
        .map(|_| NewQueue { image: image(), io: Ok(Io { queue: 256, budget }) })
        .collect();
    VirtioBlock::new(config, queues, Ok(())).unwrap()
}

/// Saves a device that holds its data path.
fn save(block: &Block) -> State {
    let ios: Vec<Io> = (0..block.num_queues as usize)
        .map(|queue| block.resources(queue).io.clone())
        .collect();
    block.save(DataPathSnapshot::Device {
        queues: ios.iter().map(|io| io.queue).collect(),
        rate_limiters: ios.iter().map(|io| io.budget).collect(),
    })
}

/// Restores a device as a host does that can make everything.
fn restore(state: &State) -> Result<Block, VirtioBlockError> {
    // Nothing is made for a state that is refused.
    let count = if state.check().is_ok() { state.virtio_state.queues.len() } else { 0 };
    let queues = (0..count)
        .map(|queue| {
            let (queue, budget) = state.queue_parts(queue);
            RestoredQueue {
                event: Ok(()),
                image: image(),
                io: Ok(Io { queue: *queue, budget: *budget }),
            }
        })
        .collect();
    VirtioBlock::restore(state, Ok(()), queues, Ok(()))
}

#[test]
fn test_file_engine_type() {
    // Conversions between the two types.
    assert_eq!(
        FileEngineTypeState::Async,
        FileEngineTypeState::from(FileEngineType::Async)
    );
    assert_eq!(
        FileEngineTypeState::Sync,
        FileEngineTypeState::from(FileEngineType::Sync)
    );
    assert_eq!(FileEngineType::Async, FileEngineTypeState::Async.into());
    assert_eq!(FileEngineType::Sync, FileEngineTypeState::Sync.into());
    // The default.
    assert_eq!(FileEngineTypeState::default(), FileEngineTypeState::Sync);
}

#[test]
fn test_cache_semantic_ser() {
    let config = VirtioBlockConfig {
        drive_id: "test".to_string(),
        path_on_host: "disk".to_string(),
        is_root_device: false,
        partuuid: None,
        is_read_only: false,
        threaded: false,
        num_queues: 1,
        cache_type: CacheType::Writeback,
        rate_limiter: None,
        file_engine_type: FileEngineType::default(),
    };

    let block = make(config);

    // Save the block device.
    let block_state = save(&block);
    assert_eq!(block_state.cache_type, CacheType::Writeback);
    assert_eq!(block_state.virtio_state.avail_features, 0x1_2000_0200);
    assert_eq!(block_state.virtio_state.queues, vec![256]);
    assert!(!block_state.threaded);
}

#[test]
fn test_persistence() {
    let block = make(two_queue_config());

    // Save the block device.
    let block_state = save(&block);

    let mut state_with_missing_rate_limiter = block_state.clone();
    state_with_missing_rate_limiter.rate_limiter_states.pop();
    assert!(matches!(
        restore(&state_with_missing_rate_limiter),
        Err(VirtioBlockError::Persist(PersistError::InvalidInput))
    ));

    let mut state_without_mq = block_state.clone();
    state_without_mq.virtio_state.avail_features &= !(1u64 << VIRTIO_BLK_F_MQ);
    assert!(matches!(
        restore(&state_without_mq),
        Err(VirtioBlockError::Persist(PersistError::InvalidInput))
    ));

    let mut single_queue_state_with_mq = block_state.clone();
    single_queue_state_with_mq.virtio_state.queues.truncate(1);
    single_queue_state_with_mq.rate_limiter_states.truncate(1);
    assert!(matches!(
        restore(&single_queue_state_with_mq),
        Err(VirtioBlockError::Persist(PersistError::InvalidInput))
    ));
    single_queue_state_with_mq.virtio_state.avail_features &= !(1u64 << VIRTIO_BLK_F_MQ);
    restore(&single_queue_state_with_mq).unwrap();

    // Restore the block device.
    let restored_block = restore(&block_state).unwrap();

    // Test that virtio specific fields are the same.
    assert_eq!(restored_block.device_type(), VirtioDeviceType::Block);
    assert_eq!(restored_block.avail_features(), block.avail_features());
    assert_eq!(restored_block.acked_features(), block.acked_features());
    for queue in 0..2 {
        assert_eq!(
            restored_block.resources(queue).io.queue,
            block.resources(queue).io.queue
        );
    }
    assert_eq!(restored_block.num_queues, block.num_queues);
    assert_eq!(
        restored_block.config_space.num_queues(),
        block.config_space.num_queues()
    );
    assert_eq!(restored_block.config_space.num_queues(), 2);
    assert_eq!(restored_block.config_space, block.config_space);
    assert!(!block.is_activated());
    assert!(!restored_block.is_activated());

    // Test that block specific fields are the same.
    assert_eq!(restored_block.disk().file_path, block.disk().file_path);
}

#[test]
fn test_multiqueue_rate_limiter_persistence() {
    let mut config = two_queue_config();
    config.rate_limiter = Some(RateLimiterConfig {
        bandwidth: Some(TokenBucketConfig {
            size: 100,
            one_time_burst: Some(0),
            refill_time: 1_000,
        }),
        ops: None,
    });
    config.file_engine_type = FileEngineType::Sync;
    let mut block = make(config);
    assert_eq!(block.resources(0).io.budget, Some(100));
    block.resources_mut(0).io.budget = Some(100 - 10);
    block.resources_mut(1).io.budget = Some(100 - 20);

    block.spawn_worker(vec![Ok(()), Ok(())]).unwrap();
    let cfg = QueueConfig { max_size: 16, ready: true };
    let activation = block
        .activate(vec![Ok(()), Ok(())], vec![1, 1], vec![cfg, cfg])
        .unwrap();
    let mut threads: Vec<ThreadedWorker<Io, u32>> = Vec::new();
    for (handle, worker) in activation.starts {
        assert_eq!(handle.queue_index as usize, threads.len());
        let mut thread = ThreadedWorker::new();
        thread.process_control_msg(ControlMsg::Start(worker));
        threads.push(thread);
    }
    assert_eq!(block.prepare_save().len(), 2);
    for thread in &mut threads {
        thread.process_control_msg(ControlMsg::Pause);
    }

    let mut states = Vec::new();
    for effect in block.snapshot_work() {
        match effect {
            DeviceEffect::Ask {
                worker: WorkerHandle { queue_index },
                message: WorkerMessage::GetSavedState,
            } => {
                let budget = [Some(90), Some(80)][queue_index as usize];
                let thread = &threads[queue_index as usize];
                states.push(thread.saved_state(16, budget).unwrap());
            }
            other => panic!("unexpected {:?}", other),
        }
    }
    let state = block.save(DataPathSnapshot::Workers(states));
    assert_eq!(state.rate_limiter_states.len(), 2);
    assert_eq!(state.disk_path, "disk");
    assert!(state.virtio_state.activated);
    let restored = restore(&state).unwrap();

    assert_eq!(restored.resources(0).io.budget, Some(90));
    assert_eq!(restored.resources(1).io.budget, Some(80));
}

#[test]
fn states_that_cannot_be_restored() {
    let good = save(&make(two_queue_config()));

    let mut none = good.clone();
    none.virtio_state.queues.clear();
    none.rate_limiter_states.clear();
    assert_eq!(
        restore(&none).unwrap_err(),
        VirtioBlockError::InvalidQueueCount(0, 32)
    );

    let mut many = good.clone();
    many.virtio_state.queues = vec![256; 70_000];
    assert_eq!(
        many.check(),
        Err(VirtioBlockError::InvalidQueueCount(65_535, 32))
    );

    let mut inline = good.clone();
    inline.threaded = false;
    assert_eq!(
        restore(&inline).unwrap_err(),
        VirtioBlockError::MultiqueueRequiresThreaded
    );

    let no_queue = |built: Result<(), PersistError>, activate: Result<(), OsError>| {
        let queue = || RestoredQueue {
            event: Ok(()),
            image: image(),
            io: Ok(Io { queue: 256, budget: None }),
        };
        Block::restore(&good, built, vec![queue(), queue()], activate).unwrap_err()
    };
    let reason = PersistError::Queue(QueueError { code: 4 });
    assert_eq!(
        no_queue(Err(reason), Ok(())),
        VirtioBlockError::Persist(reason)
    );
    assert_eq!(
        no_queue(Ok(()), Err(OsError { code: 24 })),
        VirtioBlockError::EventFd(OsError { code: 24 })
    );

    let second = |bad: RestoredQueue<Io>| {
        let first = RestoredQueue {
            event: Ok(()),
            image: image(),
            io: Ok(Io { queue: 256, budget: None }),
        };
        Block::restore(&good, Ok(()), vec![first, bad], Ok(())).unwrap_err()
    };
    let os = OsError { code: 7 };
    let io = Ok(Io { queue: 256, budget: None });
    assert_eq!(
        second(RestoredQueue { event: Err(os), image: ImageReport::Failed(os), io: Err(os) }),
        VirtioBlockError::EventFd(os)
    );
    assert_eq!(
        second(RestoredQueue { event: Ok(()), image: ImageReport::Failed(os), io }),
        VirtioBlockError::BackingFile(os, "disk".to_string())
    );
    assert_eq!(
        second(RestoredQueue { event: Ok(()), image: image(), io: Err(os) }),
        VirtioBlockError::RateLimiter(os)
    );
}

#[test]
fn an_active_device_comes_back_inactive() {
    let mut config = two_queue_config();
    config.threaded = false;
    config.num_queues = 1;
    config.is_read_only = true;
    config.cache_type = CacheType::Writeback;
    config.file_engine_type = FileEngineType::Async;
    let mut block = make(config);
    block.ack_features_by_page(0, u32::MAX);
    let cfg = QueueConfig { max_size: 256, ready: true };
    block.activate(vec![Ok(())], vec![1], vec![cfg]).unwrap();

    let state = save(&block);
    assert!(state.virtio_state.activated);
    assert_eq!(state.file_engine_type, FileEngineTypeState::Async);
    let restored = restore(&state).unwrap();
    assert!(!restored.is_activated());
    assert!(restored.read_only);
    assert_eq!(state.image_access(), OpenAccess { read: true, write: false });
    assert_eq!(restored.image_access(), state.image_access());
    let request = state.image_request();
    assert_eq!(request.path, "disk");
    assert_eq!(request.access, state.image_access());
    assert_eq!(request.engine, FileEngineType::Async);
    assert_eq!(restored.acked_features(), block.acked_features());
    assert_eq!(restored.avail_features(), 0x1_2000_0220);
    assert_eq!(restored.file_engine_type(), FileEngineType::Async);
    assert_eq!(restored.config_space.capacity, 8);
    assert_eq!(save(&restored).disk_path, state.disk_path);
}
