use std::collections::VecDeque;

use virtio_block::completion::{
    Completion, CompletionOutcome, CompletionPass, CompletionStep, IoResult,
};
use virtio_block::config::{
    BucketUpdate, CacheType, FileEngineType, RateLimiterConfig, TokenBucketConfig,
    VirtioBlockConfig,
};
use virtio_block::config_space::ConfigSpace;
use virtio_block::device::{ActiveBlock, BlockState, NewQueue, VirtioBlock};
use virtio_block::device_ops::{DeviceEffect, WorkerMessage};
use virtio_block::disk::{DiskProperties, FileIdentity, ImageReport, OpenAccess};
use virtio_block::error::{
    ActivateError, AsyncIoError, BlockIoError, InvalidAvailIdx, IoErr, OsError, QueueError,
    VirtioBlockError,
};
use virtio_block::events::{EventSource, Registration};
use virtio_block::handle::{ControlResponse, Reply, Request, RequestStep, WorkerHandle};
use virtio_block::metrics::BlockDeviceMetrics;
use virtio_block::persist::{DataPathSnapshot, FileEngineTypeState};
use virtio_block::queue::{
    FinishedRequest, PassResult, PoppedChain, ProcessingResult, QueueOutcome, QueuePass, QueueStep,
};
use virtio_block::resources::{BlockResources, QueueConfig};
use virtio_block::threaded::{
    disk_update_refused, ControlMsg, ThreadedWorker, WorkerState, PROCESS_CONTROL,
};
use virtio_block::transport::{DataPathOwner, DeviceAction};
use virtio_block::virtio::{
    VirtioDeviceType, SECTOR_SIZE, VIRTIO_BLK_ID_BYTES, VIRTIO_F_VERSION_1,
    VIRTIO_RING_F_EVENT_IDX,
};
use virtio_block::worker::{BlockWorker, FlushMode, WorkerEffect};

/// Number of entries of the simulated submission ring. The completion ring has
/// twice as many.
const IO_URING_NUM_ENTRIES: u16 = 128;

/// What a simulated chain holds.
#[derive(Clone, Copy, Debug, PartialEq)]
enum Chain {
    /// Cannot be read.
    Broken,
    /// A request that writes this many bytes to guest memory.
    Request(u32),
}

/// The simulated host side of a queue.
#[derive(Debug)]
struct Io {
    chains: Vec<(u16, Chain)>,
    next_avail: usize,
    bad_index: bool,
    used: Vec<(u16, u32)>,
    shown: usize,
    /// Tokens of the rate limiter, if it has a bucket.
    tokens: Option<u64>,
    blocked: bool,
    is_async: bool,
    /// Submitted to the engine, not passed on.
    submission: VecDeque<(u16, u32)>,
    /// Passed on and completed.
    completion: VecDeque<(u16, u32)>,
    flushed: bool,
    resets: usize,
    interrupts: Vec<u16>,
    kick_wanted: bool,
    trigger_fails: bool,
}

impl Io {
    fn new(engine: FileEngineType) -> Io {
        Io {
            chains: Vec::new(),
            next_avail: 0,
            bad_index: false,
            used: Vec::new(),
            shown: 0,
            tokens: None,
            blocked: false,
            is_async: engine == FileEngineType::Async,
            submission: VecDeque::new(),
            completion: VecDeque::new(),
            flushed: false,
            resets: 0,
            interrupts: Vec::new(),
            kick_wanted: true,
            trigger_fails: false,
        }
    }

    fn submit_all(&mut self) {
        while let Some(entry) = self.submission.pop_front() {
            self.completion.push_back(entry);
        }
    }
}

type Block = VirtioBlock<Io, u32>;
type Worker = BlockWorker<Io, u32>;
type Thread = ThreadedWorker<Io, u32>;
type Response = ControlResponse<Io, usize, Option<u64>>;

/// Performs the steps of a pass over the queue.
fn run_queue(
    resources: &mut BlockResources<Io>,
    mut pass: QueuePass,
    metrics: &mut BlockDeviceMetrics,
) -> Result<(), InvalidAvailIdx> {
    loop {
        let io = &mut resources.io;
        let outcome = match pass.pending {
            QueueStep::Pop => {
                if io.bad_index {
                    QueueOutcome::BadIndex(InvalidAvailIdx)
                } else if io.next_avail < io.chains.len() {
                    let head = io.chains[io.next_avail].0;
                    io.next_avail += 1;
                    let remaining = (io.chains.len() - io.next_avail) as u16;
                    QueueOutcome::Popped(PoppedChain { head, remaining })
                } else {
                    QueueOutcome::Empty
                }
            }
            QueueStep::Parse { head } => {
                let (found, chain) = io.chains[io.next_avail - 1];
                assert_eq!(found, head);
                QueueOutcome::Parsed(chain != Chain::Broken)
            }
            QueueStep::RateLimit { .. } => {
                let limited = io.tokens == Some(0);
                if let Some(tokens) = &mut io.tokens {
                    *tokens = tokens.saturating_sub(1);
                }
                io.blocked = limited;
                QueueOutcome::RateLimited(limited)
            }
            QueueStep::Process { head } => {
                let len = match io.chains[io.next_avail - 1].1 {
                    Chain::Request(len) => len,
                    Chain::Broken => unreachable!(),
                };
                QueueOutcome::Processed(if !io.is_async {
                    ProcessingResult::Executed(FinishedRequest {
                        num_bytes_to_mem: len,
                        desc_idx: head,
                    })
                } else if io.submission.len() >= IO_URING_NUM_ENTRIES as usize
                    || io.submission.len() + io.completion.len()
                        >= 2 * IO_URING_NUM_ENTRIES as usize
                {
                    ProcessingResult::Throttled
                } else {
                    io.submission.push_back((head, len));
                    ProcessingResult::Submitted
                })
            }
            QueueStep::UndoPop { head } => {
                io.next_avail -= 1;
                assert_eq!(io.chains[io.next_avail].0, head);
                QueueOutcome::Performed
            }
            QueueStep::AddUsed { head, len } => {
                io.used.push((head, len));
                QueueOutcome::Performed
            }
            QueueStep::AdvanceUsedRing => {
                io.shown = io.used.len();
                QueueOutcome::Performed
            }
            QueueStep::PrepareKick => QueueOutcome::KickWanted(io.kick_wanted),
            QueueStep::TriggerInterrupt { queue_index } => {
                if !io.trigger_fails {
                    io.interrupts.push(queue_index);
                }
                QueueOutcome::Triggered(!io.trigger_fails)
            }
            QueueStep::KickSubmissionQueue => {
                io.submit_all();
                QueueOutcome::Performed
            }
            QueueStep::Finished(PassResult::Served) => return Ok(()),
            QueueStep::Finished(PassResult::Broken(error)) => return Err(error),
        };
        pass.advance(outcome, resources, metrics);
    }
}

/// Performs the steps of a pass over the completions.
fn run_completions(
    resources: &mut BlockResources<Io>,
    mut pass: CompletionPass,
    metrics: &mut BlockDeviceMetrics,
) {
    let mut pending = None;
    loop {
        let io = &mut resources.io;
        let outcome = match pass.pending {
            CompletionStep::Pop => match io.completion.pop_front() {
                Some((desc_idx, num_bytes_to_mem)) => {
                    pending = Some(desc_idx);
                    CompletionOutcome::Taken(Completion::Count(num_bytes_to_mem))
                }
                None => CompletionOutcome::Empty,
            },
            CompletionStep::Finish { result } => {
                let num_bytes_to_mem = match result {
                    IoResult::Count(count) => count,
                    IoResult::Error(error) => panic!("unexpected {:?}", error),
                };
                let desc_idx = pending.take().unwrap();
                CompletionOutcome::Completed(FinishedRequest { num_bytes_to_mem, desc_idx })
            }
            CompletionStep::AddUsed { head, len } => {
                io.used.push((head, len));
                CompletionOutcome::Performed
            }
            CompletionStep::AdvanceUsedRing => {
                io.shown = io.used.len();
                CompletionOutcome::Performed
            }
            CompletionStep::PrepareKick => CompletionOutcome::KickWanted(io.kick_wanted),
            CompletionStep::TriggerInterrupt { queue_index } => {
                io.interrupts.push(queue_index);
                CompletionOutcome::Triggered(true)
            }
            CompletionStep::Finished => return,
        };
        pass.advance(outcome, resources.queue_index, metrics);
    }
}

/// Performs work on the host side of a queue. Answers are left to the caller.
fn work(worker: &mut Worker, effect: &WorkerEffect, metrics: &mut BlockDeviceMetrics) {
    match effect {
        WorkerEffect::ProcessQueue => {
            let pass = worker.process_virtio_queues();
            run_queue(&mut worker.resources, pass, metrics).unwrap();
        }
        WorkerEffect::ProcessCompletions => {
            if let Some(pass) = worker.process_async_completion_queue() {
                run_completions(&mut worker.resources, pass, metrics);
            }
        }
        other => work_on_io(&mut worker.resources.io, other),
    }
}

fn work_on_io(io: &mut Io, effect: &WorkerEffect) {
    match effect {
        WorkerEffect::Drain { discard } => {
            io.submit_all();
            if *discard {
                io.completion.clear();
            }
        }
        WorkerEffect::DrainAndFlush { discard } => {
            io.submit_all();
            if *discard {
                io.completion.clear();
            }
            io.flushed = true;
        }
        WorkerEffect::ResetQueue => {
            io.chains.clear();
            io.next_avail = 0;
            io.used.clear();
            io.shown = 0;
            io.resets += 1;
        }
        WorkerEffect::UpdateBuckets(bytes, _) => match bytes {
            BucketUpdate::Unchanged => {}
            BucketUpdate::Disabled => io.tokens = None,
            BucketUpdate::Update(bucket) => io.tokens = Some(bucket.size),
        },
        other => panic!("unexpected work {:?}", other),
    }
}

/// A simulated worker thread with its channel.
struct SimThread {
    thread: Thread,
    watching: bool,
    answers: VecDeque<Response>,
    metrics: BlockDeviceMetrics,
    image: ImageReport,
    dirty: Result<(), QueueError>,
}

impl SimThread {
    fn new() -> SimThread {
        SimThread {
            thread: Thread::new(),
            watching: false,
            answers: VecDeque::new(),
            metrics: BlockDeviceMetrics::new(),
            image: image_of(0),
            dirty: Ok(()),
        }
    }

    fn held(&mut self) -> Option<&mut Worker> {
        match &mut self.thread.state {
            WorkerState::Running(worker) | WorkerState::Paused(worker) => Some(worker),
            _ => None,
        }
    }

    fn deliver(&mut self, msg: ControlMsg<Io, u32>) {
        let mut outcome = self.thread.process_control_msg(msg);
        for effect in &outcome.effects {
            match effect {
                WorkerEffect::RegisterRuntimeEvents => {
                    assert!(!self.watching);
                    self.watching = true;
                }
                WorkerEffect::UnregisterRuntimeEvents => {
                    assert!(self.watching);
                    self.watching = false;
                }
                WorkerEffect::UpdateDisk(path, _) => {
                    let result = self.thread.finish_disk_update(path.clone(), self.image);
                    self.answers.push_back(ControlResponse::DiskUpdated(result));
                }
                WorkerEffect::RefuseDiskUpdate => self
                    .answers
                    .push_back(ControlResponse::DiskUpdated(Err(disk_update_refused()))),
                WorkerEffect::SendSavedState => {
                    let worker = self.held().unwrap();
                    let queue = worker.resources.io.used.len();
                    let tokens = worker.resources.io.tokens;
                    let saved = self.thread.saved_state(queue, tokens).unwrap();
                    self.answers.push_back(ControlResponse::SaveReady(saved));
                }
                WorkerEffect::MarkQueueDirty => {
                    self.answers.push_back(ControlResponse::QMemDirty(self.dirty))
                }
                WorkerEffect::SendQueueDirty => {
                    self.answers.push_back(ControlResponse::QMemDirty(Ok(())))
                }
                WorkerEffect::SendPaused => self.answers.push_back(ControlResponse::Paused),
                WorkerEffect::SendReset => {
                    let resources = outcome.released.take().map(|worker| worker.resources);
                    self.answers.push_back(ControlResponse::Reset(resources));
                }
                other => {
                    let mut metrics = self.metrics;
                    match outcome.released.as_mut() {
                        Some(worker) => work(worker, other, &mut metrics),
                        None => work(self.held().unwrap(), other, &mut metrics),
                    }
                    self.metrics = metrics;
                }
            }
        }
    }

    fn ask(&mut self, message: WorkerMessage) {
        self.deliver(message.control_msg());
    }
}

fn image_of(size: u64) -> ImageReport {
    ImageReport::Opened {
        size,
        metadata: Ok(FileIdentity { dev: 1, rdev: 0, ino: 2 }),
        engine: Ok(()),
    }
}

fn default_config(engine: FileEngineType) -> VirtioBlockConfig {
    VirtioBlockConfig {
        drive_id: "test".to_string(),
        path_on_host: "disk".to_string(),
        is_root_device: false,
        partuuid: None,
        is_read_only: false,
        threaded: false,
        num_queues: 1,
        cache_type: CacheType::Unsafe,
        rate_limiter: None,
        file_engine_type: engine,
    }
}

/// A device whose backing file has 0x1000 bytes.
fn default_block(engine: FileEngineType) -> Block {
    let queue = NewQueue { image: image_of(0x1000), io: Ok(Io::new(engine)) };
    VirtioBlock::new(default_config(engine), vec![queue], Ok(())).unwrap()
}

fn queue_cfg() -> QueueConfig {
    QueueConfig { max_size: 256, ready: true }
}

/// Activates a device that serves its queue itself.
fn activate_inline(block: &mut Block) {
    let activation = block.activate(vec![Ok(())], vec![7], vec![queue_cfg()]).unwrap();
    assert!(activation.starts.is_empty());
    assert!(activation.signal);
    let mut metrics = BlockDeviceMetrics::new();
    block.activation_signalled(true, &mut metrics).unwrap();
}

/// Activates a device whose queues are served by threads.
fn activate_threaded(block: &mut Block, threads: &mut [SimThread]) {
    let count = threads.len();
    let activation = block
        .activate(vec![Ok(()); count], vec![7; count], vec![queue_cfg(); count])
        .unwrap();
    assert_eq!(activation.starts.len(), count);
    for (handle, worker) in activation.starts {
        threads[handle.queue_index as usize].deliver(ControlMsg::Start(worker));
    }
}

fn inline_worker(block: &mut Block) -> &mut Worker {
    match &mut block.state {
        BlockState::Active(ActiveBlock::Inline(active)) => &mut active.worker,
        _ => panic!("not served by the device"),
    }
}

/// A notification of the driver.
fn simulate_queue_event(block: &mut Block, metrics: &mut BlockDeviceMetrics, interrupt: bool) {
    let worker = inline_worker(block);
    worker.resources.io.interrupts.clear();
    let blocked = worker.resources.io.blocked;
    if let Some(pass) = worker.process_queue_event(true, blocked, metrics) {
        run_queue(&mut worker.resources, pass, metrics).unwrap();
    }
    assert_eq!(!worker.resources.io.interrupts.is_empty(), interrupt);
}

/// A completion event.
fn simulate_async_completion_event(block: &mut Block, metrics: &mut BlockDeviceMetrics) {
    let worker = inline_worker(block);
    if let Some(pass) = worker.process_async_completion_event(true) {
        run_completions(&mut worker.resources, pass, metrics);
        if let Some(pass) = worker.resume_after_completions() {
            run_queue(&mut worker.resources, pass, metrics).unwrap();
        }
    }
}

/// Fills the queue with flush requests, each of which writes a status byte.
fn add_flush_requests_batch(block: &mut Block, count: u16) {
    let io = &mut inline_worker(block).resources.io;
    io.chains = (0..count).map(|i| (i * 2, Chain::Request(1))).collect();
    io.next_avail = 0;
    io.used.clear();
    io.shown = 0;
}

fn check_flush_requests_batch(block: &mut Block, count: u16) {
    let io = &inline_worker(block).resources.io;
    assert_eq!(io.shown, count as usize);
    for i in 0..count as usize {
        assert_eq!(io.used[i].1, 1);
    }
}

#[test]
fn test_disk_backing_file_helper() {
    let num_sectors = 2;
    let size = u64::from(SECTOR_SIZE) * num_sectors;

    for engine in [FileEngineType::Sync, FileEngineType::Async] {
        let disk_properties =
            DiskProperties::new("disk".to_string(), engine, image_of(size)).unwrap();

        assert_eq!(size, u64::from(SECTOR_SIZE) * num_sectors);
        assert_eq!(disk_properties.nsectors, num_sectors);
        assert_eq!(disk_properties.file_engine, engine);

        let res = DiskProperties::new(
            "invalid-disk-path".to_string(),
            engine,
            ImageReport::Failed(OsError { code: 2 }),
        );
        assert!(
            matches!(res, Err(VirtioBlockError::BackingFile(_, _))),
            "{:?}",
            res
        );
        assert_eq!(
            res.unwrap_err(),
            VirtioBlockError::BackingFile(OsError { code: 2 }, "invalid-disk-path".to_string())
        );
    }
}

#[test]
fn test_virtio_features() {
    for engine in [FileEngineType::Sync, FileEngineType::Async] {
        let mut block = default_block(engine);

        assert_eq!(block.device_type(), VirtioDeviceType::Block);

        let features: u64 = (1u64 << VIRTIO_F_VERSION_1) | (1u64 << VIRTIO_RING_F_EVENT_IDX);

        assert_eq!(
            block.avail_features_by_page(0),
            (features & 0xffffffff) as u32,
        );
        assert_eq!(block.avail_features_by_page(1), (features >> 32) as u32);

        for i in 2..10 {
            assert_eq!(block.avail_features_by_page(i), 0u32);
        }

        for i in 0..10 {
            block.ack_features_by_page(i, u32::MAX);
        }
        assert_eq!(block.acked_features, features);
    }
}

#[test]
fn test_config_as_bytes() {
    for engine in [FileEngineType::Sync, FileEngineType::Async] {
        let block = default_block(engine);

        let config = block.config_as_bytes();
        // The block's backing file size is 0x1000, so there are 8 (4096/512) sectors.
        let expected_config_space = ConfigSpace { capacity: 8, ..Default::default() };
        assert_eq!(config, expected_config_space.as_bytes());
        assert_eq!(config, vec![8, 0, 0, 0, 0, 0, 0, 0]);
    }
}

#[test]
fn test_virtio_write_config() {
    for engine in [FileEngineType::Sync, FileEngineType::Async] {
        let mut block = default_block(engine);
        let mut metrics = BlockDeviceMetrics::new();

        let expected_config_space = ConfigSpace { capacity: 696969, ..Default::default() };
        block.write_config(0, &expected_config_space.as_bytes(), &mut metrics);
        assert_eq!(block.config_as_bytes(), expected_config_space.as_bytes());
        assert_eq!(block.config_space, expected_config_space);

        // If privileged user writes to `/dev/mem`, in block config space - byte by byte.
        let expected_config_space = ConfigSpace { capacity: 0x1122334455667788, ..Default::default() };
        let expected_config_space_bytes = expected_config_space.as_bytes();
        for (i, b) in expected_config_space_bytes.iter().enumerate() {
            block.write_config(i as u64, &[*b], &mut metrics);
        }
        assert_eq!(block.config_as_bytes(), expected_config_space.as_bytes());
        assert_eq!(block.config_space, expected_config_space);
        assert_eq!(
            block.config_as_bytes(),
            vec![0x88, 0x77, 0x66, 0x55, 0x44, 0x33, 0x22, 0x11]
        );
        assert_eq!(metrics.cfg_fails, 0);

        // Invalid write.
        let new_config_space = ConfigSpace { capacity: 0xDEADBEEF, ..Default::default() };
        block.write_config(5, &new_config_space.as_bytes(), &mut metrics);
        // Make sure nothing got written.
        assert_eq!(block.config_as_bytes(), expected_config_space.as_bytes());
        assert_eq!(block.config_space, expected_config_space);
        assert_eq!(metrics.cfg_fails, 1);

        // Large offset that may cause an overflow.
        block.write_config(u64::MAX, &new_config_space.as_bytes(), &mut metrics);
        // Make sure nothing got written.
        assert_eq!(block.config_as_bytes(), expected_config_space.as_bytes());
        assert_eq!(block.config_space, expected_config_space);
        assert_eq!(metrics.cfg_fails, 2);
    }
}

/// A device with three queues on worker threads.
fn three_queue_block() -> Block {
    let mut config = default_config(FileEngineType::Sync);
    config.threaded = true;
    config.num_queues = 3;
    let queues = (0..3)
        .map(|_| NewQueue { image: image_of(0x1000), io: Ok(Io::new(FileEngineType::Sync)) })
        .collect();
    VirtioBlock::new(config, queues, Ok(())).unwrap()
}

#[test]
fn several_queues_are_shown_to_the_driver() {
    let mut block = three_queue_block();
    let mut metrics = BlockDeviceMetrics::new();
    let mut expected = vec![0u8; 36];
    expected[0] = 8;
    expected[34] = 3;
    assert_eq!(block.config_as_bytes(), expected);
    assert_eq!(block.config_space, ConfigSpace::new(8, 3));
    assert_eq!(block.config_space.num_queues(), 3);

    // All of the space can be written, and nothing behind it.
    block.write_config(33, &[9, 0x34, 0x12], &mut metrics);
    expected[33..36].copy_from_slice(&[9, 0x34, 0x12]);
    assert_eq!(block.config_as_bytes(), expected);
    assert_eq!(block.config_space.num_queues(), 0x1234);
    assert_eq!(metrics.cfg_fails, 0);
    block.write_config(35, &[1, 1], &mut metrics);
    assert_eq!(block.config_as_bytes(), expected);
    assert_eq!(metrics.cfg_fails, 1);

    // A new disk changes the capacity alone.
    block
        .update_disk_image("other".to_string(), vec![image_of(512); 3], &mut metrics)
        .unwrap();
    expected[0] = 1;
    assert_eq!(block.config_as_bytes(), expected);

    let single = ConfigSpace::new(8, 1);
    assert_eq!(single.num_queues(), 1);
    assert_eq!(single.as_bytes().len(), 8);
}

#[test]
fn test_invalid_request() {
    for engine in [FileEngineType::Sync, FileEngineType::Async] {
        let mut block = default_block(engine);
        let mut metrics = BlockDeviceMetrics::new();
        activate_inline(&mut block);

        // The request cannot be read.
        inline_worker(&mut block).resources.io.chains = vec![(0, Chain::Broken)];

        simulate_queue_event(&mut block, &mut metrics, true);

        let io = &inline_worker(&mut block).resources.io;
        assert_eq!(io.shown, 1);
        assert_eq!(io.used[0].0, 0);
        assert_eq!(io.used[0].1, 0);
        assert_eq!(metrics.execute_fails, 1);
    }
}

#[test]
fn test_request_parse_failures() {
    for engine in [FileEngineType::Sync, FileEngineType::Async] {
        let mut block = default_block(engine);
        let mut metrics = BlockDeviceMetrics::new();
        activate_inline(&mut block);

        for _ in 0..2 {
            let io = &mut inline_worker(&mut block).resources.io;
            io.chains = vec![(0, Chain::Broken)];
            io.next_avail = 0;
            io.used.clear();

            simulate_queue_event(&mut block, &mut metrics, true);

            let io = &inline_worker(&mut block).resources.io;
            assert_eq!(io.shown, 1);
            assert_eq!(io.used[0].0, 0);
            assert_eq!(io.used[0].1, 0);
        }
        assert_eq!(metrics.execute_fails, 2);
    }
}

#[test]
fn test_io_engine_throttling() {
    // The submission ring fills up.
    {
        let mut block = default_block(FileEngineType::Async);
        let mut metrics = BlockDeviceMetrics::new();
        activate_inline(&mut block);

        // As many requests as the ring has entries fit.
        add_flush_requests_batch(&mut block, IO_URING_NUM_ENTRIES);
        simulate_queue_event(&mut block, &mut metrics, false);
        assert!(!block.resources(0).is_io_engine_throttled);
        simulate_async_completion_event(&mut block, &mut metrics);
        check_flush_requests_batch(&mut block, IO_URING_NUM_ENTRIES);

        // Ten more do not.
        add_flush_requests_batch(&mut block, IO_URING_NUM_ENTRIES + 10);
        simulate_queue_event(&mut block, &mut metrics, false);
        assert!(block.resources(0).is_io_engine_throttled);
        // When the completion event is triggered:
        // 1. as many requests as the ring has entries are finished,
        // 2. the engine does not count as full any more,
        // 3. the queue is served again.
        simulate_async_completion_event(&mut block, &mut metrics);
        assert!(!block.resources(0).is_io_engine_throttled);
        check_flush_requests_batch(&mut block, IO_URING_NUM_ENTRIES);
        simulate_async_completion_event(&mut block, &mut metrics);
        assert!(!block.resources(0).is_io_engine_throttled);
        check_flush_requests_batch(&mut block, IO_URING_NUM_ENTRIES + 10);
    }

    // The completion ring fills up.
    {
        let mut block = default_block(FileEngineType::Async);
        let mut metrics = BlockDeviceMetrics::new();
        activate_inline(&mut block);

        add_flush_requests_batch(&mut block, IO_URING_NUM_ENTRIES);
        simulate_queue_event(&mut block, &mut metrics, false);
        assert!(!block.resources(0).is_io_engine_throttled);
        add_flush_requests_batch(&mut block, IO_URING_NUM_ENTRIES);
        simulate_queue_event(&mut block, &mut metrics, false);
        assert!(!block.resources(0).is_io_engine_throttled);

        add_flush_requests_batch(&mut block, 1);
        simulate_queue_event(&mut block, &mut metrics, false);
        assert!(block.resources(0).is_io_engine_throttled);
        // A notification is held back while the engine is full.
        simulate_queue_event(&mut block, &mut metrics, false);
        assert_eq!(metrics.io_engine_throttled_events, 1);

        simulate_async_completion_event(&mut block, &mut metrics);
        assert!(!block.resources(0).is_io_engine_throttled);
        check_flush_requests_batch(&mut block, IO_URING_NUM_ENTRIES * 2);
    }
}

#[test]
fn test_prepare_save() {
    for engine in [FileEngineType::Sync, FileEngineType::Async] {
        let mut block = default_block(engine);
        let mut metrics = BlockDeviceMetrics::new();
        activate_inline(&mut block);

        // Add a batch of flush requests.
        add_flush_requests_batch(&mut block, 5);
        simulate_queue_event(&mut block, &mut metrics, engine == FileEngineType::Sync);
        let effects = block.prepare_save();
        for effect in &effects {
            match effect {
                DeviceEffect::Work { queue_index, effect } => {
                    assert_eq!(*queue_index, 0);
                    work(inline_worker(&mut block), effect, &mut metrics);
                }
                other => panic!("unexpected {:?}", other),
            }
        }

        // All the pending flush requests were processed.
        check_flush_requests_batch(&mut block, 5);
        assert!(inline_worker(&mut block).resources.io.flushed);
    }
}

/// A write that the rate limiter holds back until it has tokens again.
fn rate_limited_write(block: &mut Block) {
    let mut metrics = BlockDeviceMetrics::new();
    activate_inline(block);
    let io = &mut inline_worker(block).resources.io;
    io.chains = vec![(0, Chain::Request(1))];
    // The budget is used up.
    io.tokens = Some(0);

    // The write fails because of rate limiting.
    simulate_queue_event(block, &mut metrics, false);
    assert_eq!(metrics.rate_limiter_throttled_events, 1);
    assert!(inline_worker(block).resources.io.blocked);
    // The data is still queued for processing.
    assert_eq!(inline_worker(block).resources.io.shown, 0);
    assert_eq!(inline_worker(block).resources.io.next_avail, 0);

    // A second write fails on the fast path.
    simulate_queue_event(block, &mut metrics, false);
    assert_eq!(metrics.rate_limiter_throttled_events, 2);
    assert!(inline_worker(block).resources.io.blocked);
    assert_eq!(inline_worker(block).resources.io.shown, 0);

    // The limiter has tokens again.
    let worker = inline_worker(block);
    worker.resources.io.tokens = Some(1);
    worker.resources.io.blocked = false;
    let pass = worker.process_rate_limiter_event(true, &mut metrics).unwrap();
    run_queue(&mut worker.resources, pass, &mut metrics).unwrap();
    assert_eq!(metrics.rate_limiter_throttled_events, 2);
    assert_eq!(metrics.rate_limiter_event_count, 1);
    assert!(!inline_worker(block).resources.io.blocked);
    simulate_async_completion_event(block, &mut metrics);

    // The queue advanced.
    let io = &inline_worker(block).resources.io;
    assert_eq!(io.shown, 1);
    assert_eq!(io.used[0], (0, 1));
}

#[test]
fn test_bandwidth_rate_limiter() {
    for engine in [FileEngineType::Sync, FileEngineType::Async] {
        rate_limited_write(&mut default_block(engine));
    }
}

#[test]
fn test_ops_rate_limiter() {
    for engine in [FileEngineType::Sync, FileEngineType::Async] {
        rate_limited_write(&mut default_block(engine));
    }
}

fn expected_id(dev: u64, rdev: u64, ino: u64) -> [u8; VIRTIO_BLK_ID_BYTES] {
    let text = format!("{}{}{}", dev, rdev, ino);
    let mut id = [0u8; VIRTIO_BLK_ID_BYTES];
    let len = text.len().min(VIRTIO_BLK_ID_BYTES);
    id[..len].copy_from_slice(&text.as_bytes()[..len]);
    id
}

#[test]
fn test_update_disk_image() {
    for engine in [FileEngineType::Sync, FileEngineType::Async] {
        let mut block = default_block(engine);
        let mut metrics = BlockDeviceMetrics::new();
        activate_inline(&mut block);

        let image = ImageReport::Opened {
            size: 0,
            metadata: Ok(FileIdentity { dev: 2049, rdev: 0, ino: 1234567 }),
            engine: Ok(()),
        };
        let tell_driver = block
            .update_disk_image("other".to_string(), vec![image], &mut metrics)
            .unwrap();

        assert!(tell_driver);
        assert_eq!(block.disk().file_path, "other");
        assert_eq!(block.disk().image_id, expected_id(2049, 0, 1234567));
        assert_eq!(block.disk().image_id, *b"204901234567\0\0\0\0\0\0\0\0");
        assert_eq!(block.config_space.capacity, 0);
        assert_eq!(metrics.update_count, 1);
        // What came with the activation stays.
        match &block.state {
            BlockState::Active(ActiveBlock::Inline(active)) => {
                assert_eq!(active.queue_cfg, vec![queue_cfg()]);
                assert_eq!(active.worker.active_state, 7);
            }
            _ => panic!("not served by the device"),
        }
    }
}

#[test]
fn test_update_disk_image_threaded() {
    let mut block = default_block(FileEngineType::Sync);
    let mut metrics = BlockDeviceMetrics::new();
    block.threaded = true;
    assert!(block.needs_workers());
    block.spawn_worker(vec![Ok(())]).unwrap();
    assert!(!block.needs_workers());
    let mut threads = [SimThread::new()];
    activate_threaded(&mut block, &mut threads);

    threads[0].image = ImageReport::Opened {
        size: u64::from(SECTOR_SIZE) * 3,
        metadata: Ok(FileIdentity { dev: 1, rdev: 2, ino: 99 }),
        engine: Ok(()),
    };
    let effects = block.disk_update_work("other".to_string());
    assert_eq!(
        effects,
        vec![DeviceEffect::AskForDisk {
            worker: WorkerHandle { queue_index: 0 },
            path: "other".to_string(),
            read_only: false,
        }]
    );
    ask_all(&effects, &mut threads);
    let answer = WorkerHandle::update_disk_image(Ok(threads[0].answers.pop_front().unwrap()));
    let answer = match answer {
        Reply::Done(answer) => answer,
        Reply::Ignored => panic!("the answer was passed over"),
    };
    let tell_driver = block.worker_disks_updated(vec![answer], &mut metrics).unwrap();

    assert_eq!(block.config_space.capacity, 3);
    assert!(tell_driver);
    assert_eq!(metrics.update_count, 1);

    ask_all(&block.deactivate_work(), &mut threads);
    let returned = match WorkerHandle::reset(threads[0].answers.pop_front()) {
        Reply::Done(returned) => returned,
        Reply::Ignored => panic!("the answer was passed over"),
    };
    block.deactivate(vec![returned]);
    assert_eq!(block.disk().file_path, "other");
    assert_eq!(block.disk().image_id, expected_id(1, 2, 99));
}

/// Performs the messages among the effects and returns how many there were.
fn ask_all(effects: &[DeviceEffect], threads: &mut [SimThread]) -> usize {
    for effect in effects {
        match effect {
            DeviceEffect::Ask { worker, message } => {
                threads[worker.queue_index as usize].ask(*message)
            }
            other => match other.clone().control_msg() {
                Some((worker, msg)) => threads[worker.queue_index as usize].deliver(msg),
                None => panic!("unexpected {:?}", other),
            },
        }
    }
    effects.len()
}

#[test]
fn test_threaded_lifecycle() {
    for engine in [FileEngineType::Sync, FileEngineType::Async] {
        let mut block = default_block(engine);
        block.threaded = true;
        block.spawn_worker(vec![Ok(())]).unwrap();
        let mut threads = [SimThread::new()];
        block.ack_features_by_page(0, u32::MAX);
        activate_threaded(&mut block, &mut threads);
        assert!(threads[0].watching);

        assert_eq!(ask_all(&block.prepare_save(), &mut threads), 1);
        assert!(matches!(
            WorkerHandle::pause(threads[0].answers.pop_front()),
            Reply::Done(())
        ));
        assert!(!threads[0].watching);
        assert_eq!(ask_all(&block.snapshot_work(), &mut threads), 1);
        let saved = match WorkerHandle::get_saved_state(threads[0].answers.pop_front()) {
            Reply::Done(saved) => saved,
            Reply::Ignored => panic!("the answer was passed over"),
        };
        let state = block.save(DataPathSnapshot::Workers(vec![saved]));
        assert!(state.virtio_state.activated);
        assert_eq!(state.file_engine_type, FileEngineTypeState::from(engine));

        ask_all(&block.dirty_work(), &mut threads);
        let dirty = match WorkerHandle::mark_queue_memory_dirty(threads[0].answers.pop_front()) {
            Reply::Done(dirty) => dirty,
            Reply::Ignored => panic!("the answer was passed over"),
        };
        block.mark_queue_memory_dirty(vec![dirty]).unwrap();

        threads[0].held().unwrap().resources.io.tokens = Some(4);
        ask_all(
            &block.update_rate_limiter(BucketUpdate::Disabled, BucketUpdate::Disabled),
            &mut threads,
        );
        ask_all(&block.kick(), &mut threads);
        assert!(threads[0].watching);

        assert_eq!(ask_all(&block.deactivate_work(), &mut threads), 1);
        let returned = match WorkerHandle::reset(threads[0].answers.pop_front()) {
            Reply::Done(returned) => returned,
            Reply::Ignored => panic!("the answer was passed over"),
        };
        let (done, effects) = block.reset(vec![returned]);
        assert!(done);
        assert_eq!(
            effects,
            vec![DeviceEffect::Work { queue_index: 0, effect: WorkerEffect::ResetQueue }]
        );
        assert!(!block.is_activated());
        assert_eq!(block.acked_features(), 0);
        assert!(block.resources(0).io.tokens.is_none());

        activate_threaded(&mut block, &mut threads);
        assert!(block.is_activated());
    }
}

#[test]
fn every_taken_chain_is_settled() {
    let mut block = default_block(FileEngineType::Sync);
    let mut metrics = BlockDeviceMetrics::new();
    activate_inline(&mut block);
    let io = &mut inline_worker(&mut block).resources.io;
    io.chains = vec![(4, Chain::Request(513)), (0, Chain::Broken), (2, Chain::Request(1))];
    io.tokens = Some(1);
    simulate_queue_event(&mut block, &mut metrics, true);
    let io = &inline_worker(&mut block).resources.io;
    assert_eq!(io.used, vec![(4, 513), (0, 0)]);
    assert_eq!(io.shown, 2);
    // The last chain is back in the ring.
    assert_eq!(io.next_avail, 2);
    // One pass interrupts the driver once.
    assert_eq!(io.interrupts, vec![0]);
    assert_eq!(metrics.remaining_reqs_count, 3);
    assert_eq!(metrics.no_avail_buffer, 0);
}

#[test]
fn an_empty_pass_is_counted_and_silent() {
    for engine in [FileEngineType::Sync, FileEngineType::Async] {
        let mut block = default_block(engine);
        let mut metrics = BlockDeviceMetrics::new();
        activate_inline(&mut block);
        simulate_queue_event(&mut block, &mut metrics, false);
        assert_eq!(metrics.no_avail_buffer, 1);
        assert_eq!(metrics.queue_event_count, 1);
    }
}

#[test]
fn a_broken_ring_ends_the_pass() {
    let mut block = default_block(FileEngineType::Sync);
    let mut metrics = BlockDeviceMetrics::new();
    activate_inline(&mut block);
    let worker = inline_worker(&mut block);
    worker.resources.io.bad_index = true;
    let pass = worker.process_queue_event(true, false, &mut metrics).unwrap();
    assert_eq!(
        run_queue(&mut worker.resources, pass, &mut metrics),
        Err(InvalidAvailIdx)
    );
    assert_eq!(metrics.no_avail_buffer, 0);
}

#[test]
fn an_interrupt_is_raised_only_on_demand() {
    let mut block = default_block(FileEngineType::Sync);
    let mut metrics = BlockDeviceMetrics::new();
    activate_inline(&mut block);
    let io = &mut inline_worker(&mut block).resources.io;
    io.chains = vec![(0, Chain::Request(1))];
    io.kick_wanted = false;
    simulate_queue_event(&mut block, &mut metrics, false);
    assert_eq!(metrics.event_fails, 0);

    let io = &mut inline_worker(&mut block).resources.io;
    io.chains.push((2, Chain::Request(1)));
    io.kick_wanted = true;
    io.trigger_fails = true;
    simulate_queue_event(&mut block, &mut metrics, false);
    assert_eq!(metrics.event_fails, 1);
}

#[test]
fn events_that_cannot_be_read_are_counted() {
    let mut block = default_block(FileEngineType::Async);
    let mut metrics = BlockDeviceMetrics::new();
    activate_inline(&mut block);
    let worker = inline_worker(&mut block);
    assert_eq!(worker.process_queue_event(false, false, &mut metrics), None);
    assert_eq!(metrics.event_fails, 1);
    assert_eq!(worker.process_async_completion_event(false), None);
    assert_eq!(worker.process_rate_limiter_event(false, &mut metrics), None);
    assert_eq!(metrics.rate_limiter_event_count, 1);
}

#[test]
fn a_full_counter_starts_again() {
    let block = default_block(FileEngineType::Sync);
    let mut metrics = BlockDeviceMetrics::new();
    metrics.activate_fails = u64::MAX;
    assert_eq!(
        block.activation_signalled(false, &mut metrics),
        Err(ActivateError::EventFd)
    );
    assert_eq!(metrics.activate_fails, 0);
}

#[test]
fn device_ids_are_cut_and_filled() {
    let report = |dev: u64, rdev: u64, ino: u64| ImageReport::Opened {
        size: 0,
        metadata: Ok(FileIdentity { dev, rdev, ino }),
        engine: Ok(()),
    };
    let id = |image: ImageReport| {
        DiskProperties::new("disk".to_string(), FileEngineType::Sync, image)
            .unwrap()
            .image_id
    };
    assert_eq!(id(report(0, 0, 0)), *b"000\0\0\0\0\0\0\0\0\0\0\0\0\0\0\0\0\0");
    assert_eq!(
        id(report(u64::MAX, 10, 9)),
        expected_id(18446744073709551615, 10, 9)
    );
    assert_eq!(id(report(10, 20, 1234567890123456789)), *b"10201234567890123456");
    let unknown = ImageReport::Opened {
        size: 0,
        metadata: Err(OsError { code: 5 }),
        engine: Ok(()),
    };
    assert_eq!(id(unknown), [0u8; VIRTIO_BLK_ID_BYTES]);
}

#[test]
fn the_tail_of_a_file_is_not_shown() {
    for (size, sectors) in [(0, 0), (511, 0), (512, 1), (1023, 1), (u64::MAX, (1 << 55) - 1)] {
        let disk =
            DiskProperties::new("disk".to_string(), FileEngineType::Sync, image_of(size)).unwrap();
        assert_eq!(disk.nsectors, sectors);
    }
}

#[test]
fn disks_are_opened_as_they_are_used() {
    assert_eq!(
        DiskProperties::open_access(true),
        OpenAccess { read: true, write: false }
    );
    let writable = OpenAccess { read: true, write: true };
    assert_eq!(DiskProperties::open_access(false), writable);
    let mut config = default_config(FileEngineType::Sync);
    assert_eq!(config.image_access(), writable);
    config.is_read_only = true;
    assert_eq!(config.image_access(), OpenAccess { read: true, write: false });

    let mut block = default_block(FileEngineType::Sync);
    assert_eq!(block.image_access(), writable);
    block.read_only = true;
    assert_eq!(block.image_access(), OpenAccess { read: true, write: false });
}

#[test]
fn a_disk_that_the_engine_refuses_stays_but_for_its_identifier() {
    let mut disk =
        DiskProperties::new("disk".to_string(), FileEngineType::Sync, image_of(1024)).unwrap();
    let refused = ImageReport::Opened {
        size: 4096,
        metadata: Ok(FileIdentity { dev: 3, rdev: 4, ino: 5 }),
        engine: Err(OsError { code: 12 }),
    };
    assert_eq!(
        disk.update("other".to_string(), refused),
        Err(VirtioBlockError::FileEngine(OsError { code: 12 }))
    );
    assert_eq!(disk.file_path, "disk");
    assert_eq!(disk.nsectors, 2);
    assert_eq!(disk.image_id, expected_id(3, 4, 5));

    assert_eq!(
        disk.update("gone".to_string(), ImageReport::Failed(OsError { code: 2 })),
        Err(VirtioBlockError::BackingFile(OsError { code: 2 }, "gone".to_string()))
    );
    assert_eq!(disk.image_id, expected_id(3, 4, 5));

    disk.update("new".to_string(), image_of(5120)).unwrap();
    assert_eq!(disk.file_path, "new");
    assert_eq!(disk.nsectors, 10);
}

#[test]
fn a_failed_update_leaves_what_the_driver_sees() {
    let mut block = default_block(FileEngineType::Sync);
    let mut metrics = BlockDeviceMetrics::new();
    let failed = ImageReport::Failed(OsError { code: 13 });
    assert_eq!(
        block.update_disk_image("other".to_string(), vec![failed], &mut metrics),
        Err(VirtioBlockError::BackingFile(OsError { code: 13 }, "other".to_string()))
    );
    assert_eq!(block.config_space.capacity, 8);
    assert_eq!(metrics.update_count, 0);
    // Before the activation there is no driver to tell.
    assert_eq!(
        block.update_disk_image("other".to_string(), vec![image_of(512)], &mut metrics),
        Ok(false)
    );
    assert_eq!(block.config_space.capacity, 1);
}

#[test]
fn all_queues_get_the_new_disk_up_to_a_failure() {
    let mut config = default_config(FileEngineType::Sync);
    config.threaded = true;
    config.num_queues = 3;
    let queues = (0..3)
        .map(|_| NewQueue { image: image_of(512), io: Ok(Io::new(FileEngineType::Sync)) })
        .collect();
    let mut block: Block = VirtioBlock::new(config, queues, Ok(())).unwrap();
    let mut metrics = BlockDeviceMetrics::new();
    // The file of the last queue is not opened any more.
    let images = vec![image_of(1024), ImageReport::Failed(OsError { code: 1 })];
    assert_eq!(
        block.update_disk_image("other".to_string(), images, &mut metrics),
        Err(VirtioBlockError::BackingFile(OsError { code: 1 }, "other".to_string()))
    );
    assert_eq!(block.resources(0).disk.file_path, "other");
    assert_eq!(block.resources(1).disk.file_path, "disk");
    assert_eq!(block.resources(2).disk.file_path, "disk");
    assert_eq!(block.config_space.capacity, 1);
}

#[test]
fn devices_that_cannot_be_made() {
    let queue = |image: ImageReport, io: Result<Io, OsError>| NewQueue { image, io };
    let io = || Ok(Io::new(FileEngineType::Sync));
    let make = |config: VirtioBlockConfig, queues: Vec<NewQueue<Io>>, evt: Result<(), OsError>| {
        Block::new(config, queues, evt).unwrap_err()
    };
    let config = || default_config(FileEngineType::Sync);

    let mut none = config();
    none.num_queues = 0;
    assert_eq!(
        make(none, vec![], Ok(())),
        VirtioBlockError::InvalidQueueCount(0, 32)
    );
    let mut many = config();
    many.num_queues = 33;
    many.threaded = true;
    assert_eq!(
        make(many, vec![], Ok(())),
        VirtioBlockError::InvalidQueueCount(33, 32)
    );
    let mut two = config();
    two.num_queues = 2;
    let queues = vec![queue(image_of(0), io()), queue(image_of(0), io())];
    assert_eq!(
        make(two, queues, Ok(())),
        VirtioBlockError::MultiqueueRequiresThreaded
    );
    assert_eq!(
        make(config(), vec![queue(ImageReport::Failed(OsError { code: 2 }), io())], Ok(())),
        VirtioBlockError::BackingFile(OsError { code: 2 }, "disk".to_string())
    );
    assert_eq!(
        make(config(), vec![queue(image_of(0), Err(OsError { code: 24 }))], Ok(())),
        VirtioBlockError::EventFd(OsError { code: 24 })
    );
    assert_eq!(
        make(config(), vec![queue(image_of(0), io())], Err(OsError { code: 23 })),
        VirtioBlockError::EventFd(OsError { code: 23 })
    );
}

#[test]
fn features_follow_the_configuration() {
    let features = |cache_type: CacheType, is_read_only: bool, num_queues: u16| {
        let mut config = default_config(FileEngineType::Sync);
        config.cache_type = cache_type;
        config.is_read_only = is_read_only;
        config.num_queues = num_queues;
        config.threaded = true;
        let queues = (0..num_queues)
            .map(|_| NewQueue { image: image_of(0), io: Ok(Io::new(FileEngineType::Sync)) })
            .collect();
        Block::new(config, queues, Ok(())).unwrap().avail_features()
    };
    assert_eq!(features(CacheType::Unsafe, false, 1), 0x1_2000_0000);
    assert_eq!(features(CacheType::Writeback, false, 1), 0x1_2000_0200);
    assert_eq!(features(CacheType::Unsafe, true, 1), 0x1_2000_0020);
    assert_eq!(features(CacheType::Unsafe, false, 2), 0x1_2000_1000);
    assert_eq!(features(CacheType::Writeback, true, 32), 0x1_2000_1220);
}

#[test]
fn features_that_are_not_offered_are_not_taken() {
    let mut block = default_block(FileEngineType::Sync);
    block.ack_features_by_page(0, 0x2000_0001);
    assert_eq!(block.acked_features(), 0x2000_0000);
    block.ack_features_by_page(2, u32::MAX);
    assert_eq!(block.acked_features(), 0x2000_0000);
    block.ack_features_by_page(1, 1);
    assert_eq!(block.acked_features(), 0x1_2000_0000);
    block.set_acked_features(1);
    assert_eq!(block.acked_features(), 1);
}

#[test]
fn a_device_is_described_by_its_configuration() {
    let mut config = default_config(FileEngineType::Async);
    config.partuuid = Some("1234-5678".to_string());
    let limiter = RateLimiterConfig {
        bandwidth: Some(TokenBucketConfig { size: 100, one_time_burst: None, refill_time: 10 }),
        ops: None,
    };
    config.rate_limiter = Some(limiter);
    let queue = NewQueue { image: image_of(0), io: Ok(Io::new(FileEngineType::Async)) };
    let block = Block::new(config.clone(), vec![queue], Ok(())).unwrap();
    assert_eq!(block.config(limiter), config);
    assert_eq!(block.id(), "test");

    config.rate_limiter = None;
    let unlimited = RateLimiterConfig { bandwidth: None, ops: None };
    assert_eq!(block.config(unlimited), config);
}

#[test]
fn a_queue_that_does_not_fit_ends_the_device() {
    let mut block = default_block(FileEngineType::Sync);
    block.ack_features_by_page(0, u32::MAX);
    let error = QueueError { code: 3 };
    assert_eq!(
        block.activate(vec![Err(error)], vec![], vec![]).unwrap_err(),
        ActivateError::QueueMemoryError(error)
    );
    assert!(!block.is_activated());
    // There is nothing left to activate or to reset.
    let activation = block.activate(vec![], vec![], vec![]).unwrap();
    assert!(!activation.signal);
    let (done, effects) = block.reset(vec![]);
    assert!(!done);
    assert!(effects.is_empty());
    assert_eq!(block.acked_features(), 0);
    assert_eq!(block.process_event(0), DeviceAction::Ignore);
    assert!(block.teardown().effects.is_empty());
}

#[test]
fn notifications_are_suppressed_on_demand() {
    let mut block = default_block(FileEngineType::Sync);
    let activation = block.activate(vec![Ok(())], vec![1], vec![queue_cfg()]).unwrap();
    assert!(!activation.suppress_notifications);

    let mut block = default_block(FileEngineType::Sync);
    block.ack_features_by_page(0, 1 << VIRTIO_RING_F_EVENT_IDX);
    let activation = block.activate(vec![Ok(())], vec![1], vec![queue_cfg()]).unwrap();
    assert!(activation.suppress_notifications);
}

#[test]
fn deactivation_gives_the_queue_back() {
    let mut block = default_block(FileEngineType::Sync);
    activate_inline(&mut block);
    block.ack_features_by_page(0, u32::MAX);
    inline_worker(&mut block).resources.is_io_engine_throttled = true;
    inline_worker(&mut block).resources.io.interrupts = vec![9];
    let effects = block.deactivate(vec![]);
    assert_eq!(
        effects,
        vec![
            DeviceEffect::Work { queue_index: 0, effect: WorkerEffect::Drain { discard: true } },
            DeviceEffect::Work { queue_index: 0, effect: WorkerEffect::ResetQueue },
        ]
    );
    assert!(!block.is_activated());
    assert!(!block.resources(0).is_io_engine_throttled);
    assert_eq!(block.resources(0).io.interrupts, vec![9]);
    assert_eq!(block.acked_features(), 0x2000_0000);
    block.resources_mut(0).io.interrupts.clear();
    assert!(block.resources(0).io.interrupts.is_empty());
}

#[test]
fn a_thread_that_keeps_its_queue_keeps_the_device_active() {
    let mut block = default_block(FileEngineType::Sync);
    block.threaded = true;
    block.spawn_worker(vec![Ok(())]).unwrap();
    let mut threads = [SimThread::new()];
    activate_threaded(&mut block, &mut threads);
    block.ack_features_by_page(0, u32::MAX);
    let (done, _) = block.reset(vec![None]);
    assert!(!done);
    assert!(block.is_activated());
    assert_eq!(block.acked_features(), 0x2000_0000);
}

#[test]
fn threads_are_started_all_or_none() {
    let mut config = default_config(FileEngineType::Sync);
    config.threaded = true;
    config.num_queues = 2;
    let queues = (0..2)
        .map(|_| NewQueue { image: image_of(0), io: Ok(Io::new(FileEngineType::Sync)) })
        .collect();
    let mut block = Block::new(config, queues, Ok(())).unwrap();
    let error = VirtioBlockError::ThreadSpawn(OsError { code: 11 });
    assert_eq!(
        block.spawn_worker(vec![Ok(()), Err(error.clone())]),
        Err(error)
    );
    assert!(block.needs_workers());
    block.spawn_worker(vec![Ok(()), Ok(())]).unwrap();
    assert!(!block.needs_workers());
    let teardown = block.teardown();
    assert_eq!(
        teardown.effects,
        vec![
            DeviceEffect::Ask {
                worker: WorkerHandle { queue_index: 0 },
                message: WorkerMessage::Finish(FlushMode::Drain)
            },
            DeviceEffect::Ask {
                worker: WorkerHandle { queue_index: 1 },
                message: WorkerMessage::Finish(FlushMode::Drain)
            },
        ]
    );

    let mut inline = default_block(FileEngineType::Sync);
    inline.spawn_worker(vec![]).unwrap();
    assert!(!inline.needs_workers());
}

#[test]
fn a_device_is_wound_up_as_its_cache_asks() {
    for (cache_type, effect, mode) in [
        (CacheType::Unsafe, WorkerEffect::Drain { discard: true }, FlushMode::Drain),
        (
            CacheType::Writeback,
            WorkerEffect::DrainAndFlush { discard: true },
            FlushMode::DrainAndFlush,
        ),
    ] {
        let mut block = default_block(FileEngineType::Sync);
        block.cache_type = cache_type;
        activate_inline(&mut block);
        let teardown = block.teardown();
        assert_eq!(
            teardown.effects,
            vec![DeviceEffect::Work { queue_index: 0, effect }]
        );
        assert!(teardown.worker.is_some());

        let mut block = default_block(FileEngineType::Sync);
        block.cache_type = cache_type;
        block.threaded = true;
        block.spawn_worker(vec![Ok(())]).unwrap();
        let mut threads = [SimThread::new()];
        activate_threaded(&mut block, &mut threads);
        let teardown = block.teardown();
        assert_eq!(ask_all(&teardown.effects, &mut threads), 1);
        assert_eq!(
            teardown.effects,
            vec![DeviceEffect::Ask {
                worker: WorkerHandle { queue_index: 0 },
                message: WorkerMessage::Finish(mode)
            }]
        );
        assert!(threads[0].thread.is_finished());
        assert!(!threads[0].watching);
    }
}

#[test]
fn a_device_waits_for_the_right_events() {
    let mut block = default_block(FileEngineType::Async);
    let activation = Registration { source: EventSource::Activate, data: 0, event_set: 0x1 };
    assert_eq!(block.init_events(), vec![activation]);
    assert_eq!(block.data_path_owner(), DataPathOwner::Device);
    assert_eq!(block.process_virtio_queues(), None);
    // Events that come too early are taken away.
    assert_eq!(block.process_event(0), DeviceAction::Ignore);
    assert_eq!(block.process_event(1), DeviceAction::Discard(EventSource::Queue));
    assert_eq!(block.process_event(2), DeviceAction::Discard(EventSource::RateLimiter));
    assert_eq!(block.process_event(3), DeviceAction::Discard(EventSource::AsyncCompletion));
    assert_eq!(
        default_block(FileEngineType::Sync).process_event(3),
        DeviceAction::Ignore
    );

    activate_inline(&mut block);
    assert_eq!(block.data_path_owner(), DataPathOwner::InlineWorker);
    assert!(block.process_virtio_queues().is_some());
    let runtime = vec![
        Registration { source: EventSource::Queue, data: 1, event_set: 0x1 },
        Registration { source: EventSource::RateLimiter, data: 2, event_set: 0x1 },
        Registration { source: EventSource::AsyncCompletion, data: 3, event_set: 0x1 },
    ];
    let changes = block.process_activate_event();
    assert_eq!(changes.add, runtime);
    assert_eq!(changes.remove, vec![activation]);
    assert_eq!(block.init_events(), runtime);
    assert_eq!(block.process_event(0), DeviceAction::Activate);
    for event in runtime {
        assert_eq!(block.process_event(event.data), DeviceAction::Serve(event.source));
    }
    assert_eq!(block.process_event(4), DeviceAction::Ignore);
    assert_eq!(block.kick(), vec![DeviceEffect::NotifyQueueEvents]);
}

#[test]
fn a_device_with_threads_waits_for_its_activation_only() {
    let mut block = default_block(FileEngineType::Async);
    block.threaded = true;
    block.spawn_worker(vec![Ok(())]).unwrap();
    let mut threads = [SimThread::new()];
    activate_threaded(&mut block, &mut threads);
    assert_eq!(block.data_path_owner(), DataPathOwner::Handles);
    assert!(block.init_events().is_empty());
    assert!(block.process_activate_event().add.is_empty());
    assert_eq!(block.process_event(1), DeviceAction::Ignore);
    assert_eq!(block.process_virtio_queues(), None);
}

#[test]
fn a_thread_listens_to_its_queue_only_while_it_serves_it() {
    let mut block = default_block(FileEngineType::Sync);
    block.threaded = true;
    block.spawn_worker(vec![Ok(())]).unwrap();
    let mut threads = [SimThread::new()];
    // The set of a descriptor that can be read, and one with an error in it.
    let (readable, failed) = (0x1, 0x9);
    assert_eq!(threads[0].thread.process(0, readable), None);
    assert_eq!(
        threads[0].thread.process(PROCESS_CONTROL, readable),
        Some(EventSource::Control)
    );

    activate_threaded(&mut block, &mut threads);
    let thread = &threads[0].thread;
    assert_eq!(thread.process(0, readable), Some(EventSource::Queue));
    assert_eq!(thread.process(1, readable), Some(EventSource::RateLimiter));
    assert_eq!(thread.process(2, readable), Some(EventSource::AsyncCompletion));
    assert_eq!(thread.process(3, readable), Some(EventSource::Control));
    assert_eq!(thread.process(4, readable), None);
    assert_eq!(thread.process(0, failed), None);
    assert_eq!(thread.process(3, failed), None);
    assert_eq!(thread.process(0, 0), Some(EventSource::Queue));

    threads[0].deliver(ControlMsg::Pause);
    assert_eq!(threads[0].thread.process(0, readable), None);
    let resources = &threads[0].held().unwrap().resources;
    assert_eq!(
        Thread::runtime_events(resources),
        vec![
            Registration { source: EventSource::Queue, data: 0, event_set: 0x1 },
            Registration { source: EventSource::RateLimiter, data: 1, event_set: 0x1 },
        ]
    );
    assert_eq!(
        Thread::control_registration(),
        Registration { source: EventSource::Control, data: 3, event_set: 0x1 }
    );
}

#[test]
fn a_thread_without_a_queue_refuses_or_stays_silent() {
    let mut thread = SimThread::new();
    thread.deliver(ControlMsg::UpdateDiskImage("disk".to_string(), true));
    let text = "disk image update requested while block worker is not running".to_string();
    match thread.answers.pop_front() {
        Some(ControlResponse::DiskUpdated(Err(error))) => {
            assert_eq!(error, VirtioBlockError::WorkerControl(text))
        }
        other => panic!("unexpected {:?}", other),
    }
    thread.deliver(ControlMsg::Pause);
    thread.deliver(ControlMsg::GetSavedState);
    thread.deliver(ControlMsg::Kick);
    assert!(thread.answers.is_empty());
    thread.deliver(ControlMsg::MarkQMemDirty);
    assert!(matches!(
        thread.answers.pop_front(),
        Some(ControlResponse::QMemDirty(Ok(())))
    ));
    thread.deliver(ControlMsg::Reset);
    assert!(matches!(
        thread.answers.pop_front(),
        Some(ControlResponse::Reset(None))
    ));
    let mut metrics = BlockDeviceMetrics::new();
    thread.thread.control_event_failed(&mut metrics);
    assert_eq!(metrics.event_fails, 0);

    thread.deliver(ControlMsg::Finish(FlushMode::Drain));
    assert!(thread.thread.is_finished());
    thread.deliver(ControlMsg::Reset);
    assert!(thread.answers.is_empty());
}

#[test]
fn a_kick_undoes_a_pause() {
    let mut block = default_block(FileEngineType::Sync);
    block.threaded = true;
    block.spawn_worker(vec![Ok(())]).unwrap();
    let mut threads = [SimThread::new()];
    activate_threaded(&mut block, &mut threads);
    threads[0].deliver(ControlMsg::Pause);
    threads[0].deliver(ControlMsg::Pause);
    assert_eq!(threads[0].answers.len(), 2);
    threads[0].dirty = Err(QueueError { code: 8 });
    threads[0].deliver(ControlMsg::MarkQMemDirty);
    assert!(matches!(
        threads[0].answers.pop_back(),
        Some(ControlResponse::QMemDirty(Err(QueueError { code: 8 })))
    ));
    threads[0].held().unwrap().resources.io.chains = vec![(6, Chain::Request(2))];
    threads[0].deliver(ControlMsg::Kick);
    assert!(threads[0].watching);
    assert_eq!(threads[0].held().unwrap().resources.io.used, vec![(6, 2)]);
    let mut metrics = BlockDeviceMetrics::new();
    threads[0].thread.control_event_failed(&mut metrics);
    assert_eq!(metrics.event_fails, 1);
    // A running thread does not take another queue.
    let worker = BlockWorker {
        resources: BlockResources {
            io: Io::new(FileEngineType::Sync),
            queue_index: 5,
            disk: DiskProperties::new("x".to_string(), FileEngineType::Sync, image_of(0)).unwrap(),
            is_io_engine_throttled: false,
        },
        active_state: 1,
    };
    threads[0].deliver(ControlMsg::Start(worker));
    assert_eq!(threads[0].held().unwrap().resources.queue_index, 0);
}

#[test]
fn queues_that_cannot_be_marked_dirty() {
    let mut block = default_block(FileEngineType::Sync);
    assert!(block.dirty_work().is_empty());
    assert!(block.deactivate_work().is_empty());
    assert!(block.snapshot_work().is_empty());
    assert!(block.disk_update_work("disk".to_string()).is_empty());
    assert_eq!(block.mark_queue_memory_dirty(vec![]), Ok(()));
    activate_inline(&mut block);
    assert_eq!(
        block.dirty_work(),
        vec![DeviceEffect::Work { queue_index: 0, effect: WorkerEffect::MarkQueueDirty }]
    );
    assert_eq!(
        block.mark_queue_memory_dirty(vec![
            Ok(()),
            Err(QueueError { code: 1 }),
            Err(QueueError { code: 2 })
        ]),
        Err(QueueError { code: 1 })
    );
}

#[test]
fn a_waiting_device_passes_over_other_answers() {
    let dirty = || Some(Response::QMemDirty(Ok(())));
    assert!(matches!(WorkerHandle::pause(dirty()), Reply::Ignored));
    assert!(matches!(
        WorkerHandle::pause(None::<Response>),
        Reply::Ignored
    ));
    assert!(matches!(
        WorkerHandle::get_saved_state(dirty()),
        Reply::Ignored
    ));
    assert!(matches!(WorkerHandle::reset(dirty()), Reply::Ignored));
    assert!(matches!(
        WorkerHandle::reset(None::<Response>),
        Reply::Done(None)
    ));
    assert!(matches!(
        WorkerHandle::mark_queue_memory_dirty(Some(Response::Paused)),
        Reply::Ignored
    ));
    assert!(matches!(
        WorkerHandle::update_disk_image(Ok(Response::Paused)),
        Reply::Ignored
    ));
    match WorkerHandle::update_disk_image(Err::<Response, &str>("gone")) {
        Reply::Done(result) => assert_eq!(
            result,
            Err(VirtioBlockError::WorkerControl(
                "failed to receive disk update response: gone".to_string()
            ))
        ),
        Reply::Ignored => panic!("the wait goes on"),
    }
    assert_eq!(
        WorkerHandle::disk_update_not_sent("full"),
        VirtioBlockError::WorkerControl("failed to send disk update request: full".to_string())
    );
    assert_eq!(
        WorkerHandle::disk_update_not_notified("shut"),
        VirtioBlockError::WorkerControl(
            "failed to notify block worker for disk update: shut".to_string()
        )
    );
}

#[test]
fn requests_go_on_or_are_given_up() {
    assert_eq!(Request::Pause.after_send(false), RequestStep::Notify);
    assert_eq!(Request::Pause.after_notify(false), RequestStep::Receive);
    assert_eq!(Request::Reset.after_send(true), RequestStep::Notify);
    assert_eq!(Request::Reset.after_send(false), RequestStep::Over);
    assert_eq!(Request::Reset.after_notify(false), RequestStep::Over);
    assert_eq!(Request::Reset.after_notify(true), RequestStep::Receive);
    assert_eq!(Request::UpdateDiskImage.after_send(false), RequestStep::Over);
    assert_eq!(Request::UpdateDiskImage.after_notify(false), RequestStep::Over);
    assert_eq!(Request::Kick.after_notify(true), RequestStep::Over);
    assert_eq!(Request::Finish.after_send(false), RequestStep::Notify);
    assert_eq!(Request::Finish.after_notify(false), RequestStep::Join);
}

#[test]
fn a_failed_completion_is_an_error_of_the_engine() {
    assert_eq!(Completion::Count(513).io_result(), IoResult::Count(513));
    let error = IoErr::FileEngine(BlockIoError::Async(AsyncIoError::IO(OsError { code: 5 })));
    assert_eq!(
        Completion::Error(OsError { code: 5 }).io_result(),
        IoResult::Error(error)
    );

    let mut pass = CompletionPass::new();
    let mut metrics = BlockDeviceMetrics::new();
    let failed = Completion::Error(OsError { code: 5 });
    pass.advance(CompletionOutcome::Taken(failed), 0, &mut metrics);
    assert_eq!(
        pass.pending,
        CompletionStep::Finish { result: IoResult::Error(error) }
    );
    let finished = FinishedRequest { num_bytes_to_mem: 1, desc_idx: 4 };
    pass.advance(CompletionOutcome::Completed(finished), 0, &mut metrics);
    assert_eq!(pass.pending, CompletionStep::AddUsed { head: 4, len: 1 });
    pass.advance(CompletionOutcome::Performed, 0, &mut metrics);
    pass.advance(CompletionOutcome::Failed, 0, &mut metrics);
    assert_eq!(pass.pending, CompletionStep::AdvanceUsedRing);
    pass.advance(CompletionOutcome::Performed, 0, &mut metrics);
    pass.advance(CompletionOutcome::KickWanted(true), 2, &mut metrics);
    assert_eq!(
        pass.pending,
        CompletionStep::TriggerInterrupt { queue_index: 2 }
    );
    pass.advance(CompletionOutcome::Triggered(false), 2, &mut metrics);
    assert_eq!(pass.pending, CompletionStep::Finished);
    assert_eq!(metrics.event_fails, 1);
}

#[test]
fn messages_carry_their_requests() {
    let request = |message: WorkerMessage| Request::of(&message.control_msg::<Io, u32>());
    assert_eq!(request(WorkerMessage::Kick), Request::Kick);
    assert_eq!(request(WorkerMessage::Pause), Request::Pause);
    assert_eq!(
        request(WorkerMessage::UpdateRateLimiter(
            BucketUpdate::Disabled,
            BucketUpdate::Unchanged
        )),
        Request::UpdateRateLimiter
    );
    assert_eq!(request(WorkerMessage::GetSavedState), Request::GetSavedState);
    assert_eq!(request(WorkerMessage::MarkQMemDirty), Request::MarkQMemDirty);
    assert_eq!(request(WorkerMessage::Reset), Request::Reset);
    assert_eq!(
        request(WorkerMessage::Finish(FlushMode::Drain)),
        Request::Finish
    );
    let effect = DeviceEffect::AskForDisk {
        worker: WorkerHandle { queue_index: 1 },
        path: "disk".to_string(),
        read_only: true,
    };
    match effect.control_msg::<Io, u32>() {
        Some((worker, msg)) => {
            assert_eq!(worker.queue_index, 1);
            assert_eq!(Request::of(&msg), Request::UpdateDiskImage);
            match msg {
                ControlMsg::UpdateDiskImage(path, true) => assert_eq!(path, "disk"),
                other => panic!("unexpected {:?}", other),
            }
        }
        None => panic!("no message"),
    }
    assert!(DeviceEffect::NotifyQueueEvents
        .control_msg::<Io, u32>()
        .is_none());
}

#[test]
fn a_new_queue_is_made_of_the_configuration() {
    let mut config = default_config(FileEngineType::Async);
    config.is_read_only = true;
    config.rate_limiter = Some(RateLimiterConfig {
        bandwidth: None,
        ops: Some(TokenBucketConfig { size: 5, one_time_burst: None, refill_time: 100 }),
    });
    let parts = config.queue_parts();
    assert_eq!(parts.image.path, "disk");
    assert_eq!(parts.image.access, OpenAccess { read: true, write: false });
    assert_eq!(parts.image.engine, FileEngineType::Async);
    assert_eq!(parts.rate_limiter, config.rate_limiter);
    assert_eq!(parts.max_size, 256);
}

#[test]
fn reports_may_end_with_a_failure() {
    let mut config = default_config(FileEngineType::Sync);
    config.threaded = true;
    config.num_queues = 3;
    let failed = NewQueue {
        image: ImageReport::Failed(OsError { code: 2 }),
        io: Err(OsError { code: 2 }),
    };
    assert_eq!(
        Block::new(config, vec![failed], Ok(())).unwrap_err(),
        VirtioBlockError::BackingFile(OsError { code: 2 }, "disk".to_string())
    );

    let mut block = three_queue_block();
    let error = VirtioBlockError::ThreadSpawn(OsError { code: 11 });
    assert_eq!(block.spawn_worker(vec![Err(error.clone())]), Err(error));
    block.spawn_worker(vec![Ok(()); 3]).unwrap();
    let mut threads = [SimThread::new(), SimThread::new(), SimThread::new()];
    activate_threaded(&mut block, &mut threads);
    let mut metrics = BlockDeviceMetrics::new();
    let error = VirtioBlockError::WorkerControl("gone".to_string());
    assert_eq!(
        block.worker_disks_updated(vec![Ok(9), Err(error.clone())], &mut metrics),
        Err(error)
    );
    assert_eq!(block.config_space.capacity, 8);
}

#[test]
fn only_an_active_device_has_dirty_queues() {
    let mut block = default_block(FileEngineType::Sync);
    let failed = || vec![Err(QueueError { code: 6 })];
    assert_eq!(block.mark_queue_memory_dirty(failed()), Ok(()));
    activate_inline(&mut block);
    assert_eq!(
        block.mark_queue_memory_dirty(failed()),
        Err(QueueError { code: 6 })
    );
}
