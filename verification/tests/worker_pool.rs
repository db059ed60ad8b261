use virtio_block::worker_pool::{PoolEffect, PoolMsg, WorkerLoop, WorkerPool};

#[test]
fn threads_take_turns() {
    let mut pool = WorkerPool::new(3);
    let chosen: Vec<PoolEffect> = (0..7).map(|_| pool.assign()).collect();
    let expected: Vec<PoolEffect> = [0, 1, 2, 0, 1, 2, 0]
        .iter()
        .map(|worker| PoolEffect::SendDevice { worker: *worker })
        .collect();
    assert_eq!(chosen, expected);
    // The devices are spread evenly.
    for worker in 0..3 {
        let count = chosen
            .iter()
            .filter(|effect| **effect == PoolEffect::SendDevice { worker })
            .count();
        assert_eq!(count, if worker == 0 { 3 } else { 2 });
    }
}

#[test]
fn the_count_of_devices_may_overflow() {
    let mut pool = WorkerPool::new(3);
    pool.next = usize::MAX;
    assert_eq!(
        pool.assign(),
        PoolEffect::SendDevice { worker: usize::MAX % 3 }
    );
    assert_eq!(pool.assign(), PoolEffect::SendDevice { worker: 0 });
}

#[test]
fn a_thread_is_woken_for_what_it_got() {
    assert_eq!(
        WorkerPool::after_send(2, true),
        Some(PoolEffect::Kick { worker: 2 })
    );
    assert_eq!(WorkerPool::after_send(2, false), None);
}

#[test]
fn all_are_told_before_any_is_awaited() {
    let mut pool = WorkerPool::new(2);
    assert_eq!(
        pool.shutdown(),
        vec![
            PoolEffect::SendShutdown { worker: 0 },
            PoolEffect::Kick { worker: 0 },
            PoolEffect::SendShutdown { worker: 1 },
            PoolEffect::Kick { worker: 1 },
            PoolEffect::Join { worker: 0 },
            PoolEffect::Join { worker: 1 },
        ]
    );
    // A second time there is nothing to do.
    assert!(pool.shutdown().is_empty());
}

#[test]
fn threads_that_have_ended_are_left_alone() {
    let mut pool = WorkerPool::new(3);
    pool.workers[1].joined = true;
    assert_eq!(
        pool.shutdown(),
        vec![
            PoolEffect::SendShutdown { worker: 0 },
            PoolEffect::Kick { worker: 0 },
            PoolEffect::SendShutdown { worker: 2 },
            PoolEffect::Kick { worker: 2 },
            PoolEffect::Join { worker: 0 },
            PoolEffect::Join { worker: 2 },
        ]
    );
}

#[test]
fn a_thread_reads_all_its_messages_before_it_ends() {
    let mut worker = WorkerLoop::new();
    assert_eq!(worker.drain(Vec::<PoolMsg<u8>>::new()), Vec::<u8>::new());
    assert!(!worker.stop);
    let added = worker.drain(vec![
        PoolMsg::AddSubscriber('a'),
        PoolMsg::Shutdown,
        PoolMsg::AddSubscriber('b'),
    ]);
    assert_eq!(added, vec!['a', 'b']);
    assert!(worker.stop);
}
