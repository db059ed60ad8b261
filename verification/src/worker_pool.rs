//! A pool of threads that devices are spread over.
//!
//! The pool decides which thread a device goes to and how the threads are ended.
//! The threads, the channels to them and the events that wake them are the
//! host's.

use vstd::prelude::*;

verus! {

/// A thread of the pool.
#[derive(Clone, Copy, Debug, PartialEq, Eq, Structural)]
pub struct Worker {
    /// Whether the thread has ended and was waited for.
    pub joined: bool,
}

/// A pool of threads.
#[derive(Debug)]
pub struct WorkerPool {
    /// The threads.
    pub workers: Vec<Worker>,
    /// Number of devices that were assigned so far.
    pub next: usize,
}

/// A message to a thread of the pool.
#[derive(Debug)]
pub enum PoolMsg<D> {
    /// Handle the events of this device.
    AddSubscriber(D),
    /// End.
    Shutdown,
}

/// Work of the host on a thread of the pool.
#[derive(Clone, Copy, Debug, PartialEq, Eq, Structural)]
pub enum PoolEffect {
    /// Send the device to the thread, and hand the outcome to `after_send`.
    SendDevice {
        /// The thread.
        worker: usize,
    },
    /// Tell the thread to end.
    SendShutdown {
        /// The thread.
        worker: usize,
    },
    /// Wake the thread.
    Kick {
        /// The thread.
        worker: usize,
    },
    /// Wait for the thread to end.
    Join {
        /// The thread.
        worker: usize,
    },
}

/// The threads among the first `n` that were not waited for.
pub open spec fn running(workers: Seq<Worker>, n: int) -> Seq<int>
    decreases n,
{
    if n <= 0 {
        seq![]
    } else if workers[n - 1].joined {
        running(workers, n - 1)
    } else {
        running(workers, n - 1).push(n - 1)
    }
}

/// Telling threads to end, and waking each of them.
pub open spec fn signals(threads: Seq<int>) -> Seq<PoolEffect>
    decreases threads.len(),
{
    if threads.len() == 0 {
        seq![]
    } else {
        signals(threads.drop_last()) + seq![
            PoolEffect::SendShutdown { worker: threads.last() as usize },
            PoolEffect::Kick { worker: threads.last() as usize },
        ]
    }
}

/// Waiting for threads to end.
pub open spec fn joins(threads: Seq<int>) -> Seq<PoolEffect> {
    Seq::new(threads.len(), |i: int| PoolEffect::Join { worker: threads[i] as usize })
}

impl WorkerPool {
    /// A pool has threads.
    pub open spec fn wf(self) -> bool {
        self.workers@.len() > 0
    }

    /// The thread that the next device goes to.
    pub open spec fn chosen(self) -> int {
        self.next as int % self.workers@.len() as int
    }

    /// Number of devices among the first `n` that went to a thread.
    pub open spec fn devices_of(self, worker: int, n: int) -> int
        decreases n,
    {
        if n <= 0 {
            0
        } else {
            self.devices_of(worker, n - 1) + if (n - 1) % self.workers@.len() as int == worker {
                1int
            } else {
                0
            }
        }
    }

    proof fn lemma_devices_of(self, worker: int, n: int)
        requires
            self.wf(),
            0 <= worker < self.workers@.len(),
            0 <= n,
        ensures
            self.devices_of(worker, n) == n / self.workers@.len() as int + if worker < n
                % self.workers@.len() as int {
                1int
            } else {
                0
            },
        decreases n,
    {
        let size = self.workers@.len() as int;
        if n == 0 {
            vstd::arithmetic::div_mod::lemma_fundamental_div_mod_converse(0, size, 0, 0);
        } else {
            self.lemma_devices_of(worker, n - 1);
            let q = (n - 1) / size;
            let r = (n - 1) % size;
            vstd::arithmetic::div_mod::lemma_fundamental_div_mod(n - 1, size);
            if r + 1 < size {
                vstd::arithmetic::div_mod::lemma_fundamental_div_mod_converse(n, size, q, r + 1);
            } else {
                vstd::arithmetic::div_mod::lemma_mod_bound(n - 1, size);
                assert((q + 1) * size == size * q + size) by (nonlinear_arith);
                vstd::arithmetic::div_mod::lemma_fundamental_div_mod_converse(n, size, q + 1, 0);
            }
        }
    }

    /// The work by which the pool is ended: first every thread is told to end,
    /// then every thread is waited for.
    pub open spec fn shutdown_work(self) -> Seq<PoolEffect> {
        let threads = running(self.workers@, self.workers@.len() as int);
        signals(threads) + joins(threads)
    }

    /// A pool of `pool_size` threads, which the host starts.
    pub fn new(pool_size: usize) -> (pool: WorkerPool)
        requires
            pool_size > 0,
        ensures
            pool.wf(),
            pool.workers@.len() == pool_size,
            forall|i: int| 0 <= i < pool_size ==> !(#[trigger] pool.workers@[i]).joined,
            pool.next == 0,
    {
        let mut workers: Vec<Worker> = Vec::new();
        let mut id: usize = 0;
        while id < pool_size
            invariant
                id <= pool_size,
                workers@.len() == id,
                forall|i: int| 0 <= i < id ==> !(#[trigger] workers@[i]).joined,
            decreases pool_size - id,
        {
            workers.push(Worker { joined: false });
            id = id + 1;
        }
        WorkerPool { workers, next: 0 }
    }

    /// Chooses the thread of a device: the threads take turns.
    pub fn assign(&mut self) -> (effect: PoolEffect)
        requires
            old(self).wf(),
        ensures
            final(self).wf(),
            effect == (PoolEffect::SendDevice { worker: old(self).chosen() as usize }),
            0 <= old(self).chosen() < old(self).workers@.len(),
            final(self).workers == old(self).workers,
            final(self).next == if old(self).next == usize::MAX {
                0
            } else {
                old(self).next + 1
            },
    {
        let worker: usize = self.next % self.workers.len();
        self.next = self.next.wrapping_add(1);
        PoolEffect::SendDevice { worker }
    }

    /// Wakes the thread that a device was sent to. A thread that is gone did not
    /// get it and is not woken.
    pub fn after_send(worker: usize, sent: bool) -> (effect: Option<PoolEffect>)
        ensures
            effect == if sent {
                Some(PoolEffect::Kick { worker })
            } else {
                None
            },
    {
        if sent {
            Some(PoolEffect::Kick { worker })
        } else {
            None
        }
    }

    /// Ends the pool. Threads that have ended are left alone.
    pub fn shutdown(&mut self) -> (effects: Vec<PoolEffect>)
        ensures
            effects@ == old(self).shutdown_work(),
            final(self).workers@.len() == old(self).workers@.len(),
            forall|i: int|
                0 <= i < final(self).workers@.len() ==> (#[trigger] final(
                    self).workers@[i]).joined,
            final(self).next == old(self).next,
    {
        let ghost before = self.workers@;
        let mut effects: Vec<PoolEffect> = Vec::new();
        let mut i: usize = 0;
        while i < self.workers.len()
            invariant
                self.workers@ == before,
                self.next == old(self).next,
                i <= before.len(),
                effects@ == signals(running(before, i as int)),
            decreases before.len() - i,
        {
            if !self.workers[i].joined {
                effects.push(PoolEffect::SendShutdown { worker: i });
                effects.push(PoolEffect::Kick { worker: i });
                proof {
                    assert(running(before, i as int).push(i as int).drop_last() =~= running(
                        before,
                        i as int,
                    ));
                    assert(effects@ =~= signals(running(before, i + 1)));
                }
            }
            i = i + 1;
        }
        let ghost told = effects@;
        let mut j: usize = 0;
        while j < self.workers.len()
            invariant
                self.workers@.len() == before.len(),
                self.next == old(self).next,
                j <= before.len(),
                told == signals(running(before, before.len() as int)),
                forall|k: int| 0 <= k < j ==> (#[trigger] self.workers@[k]).joined,
                forall|k: int| j <= k < before.len() ==> #[trigger] self.workers@[k] == before[k],
                effects@ == told + joins(running(before, j as int)),
            decreases before.len() - j,
        {
            if !self.workers[j].joined {
                self.workers.set(j, Worker { joined: true });
                effects.push(PoolEffect::Join { worker: j });
                assert(effects@ =~= told + joins(running(before, j + 1)));
            }
            j = j + 1;
        }
        effects
    }
}

/// What a thread of the pool does between two waits for events.
#[derive(Clone, Copy, Debug, PartialEq, Eq, Structural)]
pub struct WorkerLoop {
    /// Whether the thread was told to end.
    pub stop: bool,
}

/// The devices that messages bring, in order.
pub open spec fn devices<D>(msgs: Seq<PoolMsg<D>>) -> Seq<D>
    decreases msgs.len(),
{
    if msgs.len() == 0 {
        seq![]
    } else {
        match msgs.last() {
            PoolMsg::AddSubscriber(device) => devices(msgs.drop_last()).push(device),
            PoolMsg::Shutdown => devices(msgs.drop_last()),
        }
    }
}

/// Whether a message tells the thread to end.
pub open spec fn tells_to_end<D>(msgs: Seq<PoolMsg<D>>) -> bool {
    exists|i: int| 0 <= i < msgs.len() && (#[trigger] msgs[i]) is Shutdown
}

impl WorkerLoop {
    /// A thread that was not told to end.
    pub fn new() -> (worker: Self)
        ensures
            !worker.stop,
    {
        WorkerLoop { stop: false }
    }

    /// Obeys a message. A device that it brings has to be watched. The thread
    /// reads all its messages before it ends.
    pub fn on_message<D>(&mut self, msg: PoolMsg<D>) -> (device: Option<D>)
        ensures
            match msg {
                PoolMsg::AddSubscriber(added) => {
                    &&& device == Some(added)
                    &&& final(self).stop == old(self).stop
                },
                PoolMsg::Shutdown => {
                    &&& device is None
                    &&& final(self).stop
                },
            },
    {
        match msg {
            PoolMsg::AddSubscriber(device) => Some(device),
            PoolMsg::Shutdown => {
                self.stop = true;
                None
            },
        }
    }

    /// Obeys all messages that wait for the thread, and returns the devices that
    /// they bring.
    pub fn drain<D>(&mut self, msgs: Vec<PoolMsg<D>>) -> (added: Vec<D>)
        ensures
            added@ == devices(msgs@),
            final(self).stop == (old(self).stop || tells_to_end(msgs@)),
    {
        let mut added: Vec<D> = Vec::new();
        let mut waiting = msgs;
        let ghost mut taken: int = 0;
        while waiting.len() > 0
            invariant
                0 <= taken <= msgs@.len(),
                waiting@ == msgs@.skip(taken),
                added@ == devices(msgs@.take(taken)),
                self.stop == (old(self).stop || tells_to_end(msgs@.take(taken))),
            decreases waiting@.len(),
        {
            let ghost before = msgs@.take(taken);
            let msg = waiting.remove(0);
            proof {
                let after = msgs@.take(taken + 1);
                assert(after.drop_last() =~= before);
                assert(after.last() == msg);
                assert(waiting@ =~= msgs@.skip(taken + 1));
                if tells_to_end(before) {
                    let i = choose|i: int| 0 <= i < before.len() && (#[trigger] before[i])
                        is Shutdown;
                    assert(after[i] is Shutdown);
                }
                if msg is Shutdown {
                    assert(after[taken] is Shutdown);
                }
                if tells_to_end(after) {
                    let i = choose|i: int| 0 <= i < after.len() && (#[trigger] after[i])
                        is Shutdown;
                    if i < taken {
                        assert(before[i] is Shutdown);
                    }
                }
                taken = taken + 1;
            }
            if let Some(device) = self.on_message(msg) {
                added.push(device);
            }
        }
        assert(msgs@.take(taken) =~= msgs@);
        added
    }
}

/// Devices go round: the device that is assigned `n` devices after another goes
/// to the same thread exactly if `n` is a multiple of the number of threads.
/// This holds as long as the count of devices does not overflow.
pub proof fn law_threads_take_turns(first: WorkerPool, later: WorkerPool)
    requires
        first.wf(),
        later.workers@.len() == first.workers@.len(),
        first.next <= later.next,
    ensures
        (first.chosen() == later.chosen()) == ((later.next - first.next)
            % first.workers@.len() as int == 0),
{
    let n = first.workers@.len() as int;
    let a = first.next as int;
    let b = later.next as int;
    vstd::arithmetic::div_mod::lemma_mod_equivalence(b, a, n);
}

/// Devices are spread evenly: the numbers of devices of two threads differ by one
/// at most, and a device counts for the thread that is chosen for it. This holds
/// as long as the count of devices does not overflow.
pub proof fn law_devices_are_spread_evenly(pool: WorkerPool, a: int, b: int)
    requires
        pool.wf(),
        0 <= a < pool.workers@.len(),
        0 <= b < pool.workers@.len(),
    ensures
        -1 <= pool.devices_of(a, pool.next as int) - pool.devices_of(b, pool.next as int) <= 1,
        pool.devices_of(a, pool.next + 1) == pool.devices_of(a, pool.next as int) + if a
            == pool.chosen() {
            1int
        } else {
            0
        },
{
    pool.lemma_devices_of(a, pool.next as int);
    pool.lemma_devices_of(b, pool.next as int);
}

/// A pool that was ended is left alone when it is ended again.
pub proof fn law_shutdown_is_idempotent(pool: WorkerPool)
    requires
        forall|i: int| 0 <= i < pool.workers@.len() ==> (#[trigger] pool.workers@[i]).joined,
    ensures
        pool.shutdown_work() == Seq::<PoolEffect>::empty(),
{
    lemma_none_running(pool.workers@, pool.workers@.len() as int);
    assert(joins(Seq::<int>::empty()) =~= Seq::<PoolEffect>::empty());
    assert(pool.shutdown_work() =~= Seq::<PoolEffect>::empty());
}

proof fn lemma_none_running(workers: Seq<Worker>, n: int)
    requires
        0 <= n <= workers.len(),
        forall|i: int| 0 <= i < workers.len() ==> (#[trigger] workers[i]).joined,
    ensures
        running(workers, n) == Seq::<int>::empty(),
    decreases n,
{
    if n > 0 {
        lemma_none_running(workers, n - 1);
    }
}

/// No thread is waited for before every thread was told to end and woken.
pub proof fn law_all_are_told_before_any_is_awaited(pool: WorkerPool, i: int, j: int)
    requires
        0 <= i < pool.shutdown_work().len(),
        0 <= j < pool.shutdown_work().len(),
        pool.shutdown_work()[i] is Join,
        !(pool.shutdown_work()[j] is Join),
    ensures
        j < i,
{
    let threads = running(pool.workers@, pool.workers@.len() as int);
    lemma_signals_join_nothing(threads, i);
    if j >= signals(threads).len() {
        assert(pool.shutdown_work()[j] == joins(threads)[j - signals(threads).len()]);
    }
}

proof fn lemma_signals_join_nothing(threads: Seq<int>, i: int)
    ensures
        0 <= i < signals(threads).len() ==> !(signals(threads)[i] is Join),
    decreases threads.len(),
{
    if threads.len() > 0 {
        lemma_signals_join_nothing(threads.drop_last(), i);
    }
}

/// Every thread that was not waited for is told to end, woken and waited for, and
/// no other is.
pub proof fn law_shutdown_reaches_running_threads(pool: WorkerPool, worker: int)
    requires
        0 <= worker < pool.workers@.len() <= usize::MAX,
    ensures
        pool.shutdown_work().contains(PoolEffect::SendShutdown { worker: worker as usize })
            == !pool.workers@[worker].joined,
        pool.shutdown_work().contains(PoolEffect::Kick { worker: worker as usize })
            == !pool.workers@[worker].joined,
        pool.shutdown_work().contains(PoolEffect::Join { worker: worker as usize })
            == !pool.workers@[worker].joined,
{
    let n = pool.workers@.len() as int;
    let threads = running(pool.workers@, n);
    let work = pool.shutdown_work();
    let told = PoolEffect::SendShutdown { worker: worker as usize };
    let woken = PoolEffect::Kick { worker: worker as usize };
    let awaited = PoolEffect::Join { worker: worker as usize };
    lemma_running(pool.workers@, n, worker);
    lemma_signals_len(threads);
    if !pool.workers@[worker].joined {
        let k = choose|k: int| 0 <= k < threads.len() && threads[k] == worker;
        lemma_signals(threads, k);
        assert(work[2 * k] == told);
        assert(work[2 * k + 1] == woken);
        assert(work[signals(threads).len() + k] == awaited);
    }
    assert forall|i: int| 0 <= i < work.len() && (work[i] == told || work[i] == woken || work[i]
        == awaited) implies !pool.workers@[worker].joined by {
        let k = if i < signals(threads).len() {
            i / 2
        } else {
            i - signals(threads).len()
        };
        if i < signals(threads).len() {
            lemma_signals(threads, k);
        } else {
            assert(work[i] == joins(threads)[k]);
        }
        lemma_running_index(pool.workers@, n, k);
        assert(threads[k] == worker);
        assert(threads.contains(worker));
    }
}

proof fn lemma_signals_len(threads: Seq<int>)
    ensures
        signals(threads).len() == 2 * threads.len(),
    decreases threads.len(),
{
    if threads.len() > 0 {
        lemma_signals_len(threads.drop_last());
    }
}

/// The signals of thread `k` stand at its place.
proof fn lemma_signals(threads: Seq<int>, k: int)
    requires
        0 <= k < threads.len(),
    ensures
        signals(threads).len() == 2 * threads.len(),
        signals(threads)[2 * k] == (PoolEffect::SendShutdown { worker: threads[k] as usize }),
        signals(threads)[2 * k + 1] == (PoolEffect::Kick { worker: threads[k] as usize }),
    decreases threads.len(),
{
    lemma_signals_len(threads.drop_last());
    if k < threads.len() - 1 {
        lemma_signals(threads.drop_last(), k);
    }
}

proof fn lemma_running(workers: Seq<Worker>, n: int, worker: int)
    requires
        0 <= n <= workers.len(),
    ensures
        running(workers, n).contains(worker) == (0 <= worker < n && !workers[worker].joined),
    decreases n,
{
    if n > 0 {
        lemma_running(workers, n - 1, worker);
        let before = running(workers, n - 1);
        if !workers[n - 1].joined {
            let after = running(workers, n);
            if worker == n - 1 {
                assert(after[before.len() as int] == worker);
            }
            if before.contains(worker) {
                let i = choose|i: int| 0 <= i < before.len() && before[i] == worker;
                assert(after[i] == worker);
            }
            if after.contains(worker) {
                let i = choose|i: int| 0 <= i < after.len() && after[i] == worker;
                if i < before.len() {
                    assert(before[i] == worker);
                }
            }
        }
    }
}

proof fn lemma_running_index(workers: Seq<Worker>, n: int, i: int)
    requires
        0 <= n <= workers.len(),
        0 <= i < running(workers, n).len(),
    ensures
        0 <= running(workers, n)[i] < n,
    decreases n,
{
    if n > 0 {
        if i < running(workers, n - 1).len() {
            lemma_running_index(workers, n - 1, i);
        }
    }
}

/// The first devices go to the threads in their order, and each device goes to the
/// thread behind that of the one before it, or to the first behind the last. The
/// thread that is chosen is one of the pool.
pub proof fn law_devices_go_to_the_next_thread(pool: WorkerPool, later: WorkerPool)
    requires
        pool.wf(),
        later.workers@.len() == pool.workers@.len(),
        later.next == pool.next + 1,
    ensures
        0 <= pool.chosen() < pool.workers@.len(),
        pool.next < pool.workers@.len() ==> pool.chosen() == pool.next,
        later.chosen() == if pool.chosen() + 1 < pool.workers@.len() {
            pool.chosen() + 1
        } else {
            0
        },
{
    let n = pool.workers@.len() as int;
    let (q, r) = (pool.next as int / n, pool.next as int % n);
    vstd::arithmetic::div_mod::lemma_fundamental_div_mod(pool.next as int, n);
    vstd::arithmetic::div_mod::lemma_mod_bound(pool.next as int, n);
    if pool.next < n {
        vstd::arithmetic::div_mod::lemma_small_mod(pool.next as nat, n as nat);
    }
    if r + 1 < n {
        vstd::arithmetic::div_mod::lemma_fundamental_div_mod_converse(pool.next + 1, n, q, r + 1);
    } else {
        assert((q + 1) * n == n * q + n) by (nonlinear_arith);
        vstd::arithmetic::div_mod::lemma_fundamental_div_mod_converse(pool.next + 1, n, q + 1, 0);
    }
}

/// Every device that messages bring is added, in the order of the messages:
/// messages that come later add their devices behind those before them, a message
/// with a device adds just that, and one to end adds none.
pub proof fn law_all_devices_are_added<D>(first: Seq<PoolMsg<D>>, second: Seq<PoolMsg<D>>, device: D)
    ensures
        devices(Seq::<PoolMsg<D>>::empty()) == Seq::<D>::empty(),
        devices(first + second) == devices(first) + devices(second),
        devices(first.push(PoolMsg::AddSubscriber(device))) == devices(first).push(device),
        devices(first.push(PoolMsg::Shutdown)) == devices(first),
    decreases second.len(),
{
    assert(first.push(PoolMsg::AddSubscriber(device)).drop_last() =~= first);
    assert(first.push(PoolMsg::Shutdown).drop_last() =~= first);
    if second.len() == 0 {
        assert(first + second =~= first);
    } else {
        law_all_devices_are_added(first, second.drop_last(), device);
        assert((first + second).drop_last() =~= first + second.drop_last());
    }
}

/// A thread is told to end exactly if one of its messages says so.
pub proof fn law_when_a_thread_is_told_to_end<D>(msgs: Seq<PoolMsg<D>>, device: D)
    ensures
        !tells_to_end(Seq::<PoolMsg<D>>::empty()),
        tells_to_end(msgs.push(PoolMsg::Shutdown)),
        tells_to_end(msgs.push(PoolMsg::AddSubscriber(device))) <==> tells_to_end(msgs),
{
    assert(msgs.push(PoolMsg::Shutdown)[msgs.len() as int] is Shutdown);
    let after = msgs.push(PoolMsg::AddSubscriber(device));
    if tells_to_end(msgs) {
        let i = choose|i: int| 0 <= i < msgs.len() && (#[trigger] msgs[i]) is Shutdown;
        assert(after[i] is Shutdown);
    }
    if tells_to_end(after) {
        let i = choose|i: int| 0 <= i < after.len() && (#[trigger] after[i]) is Shutdown;
        assert(msgs[i] is Shutdown);
    }
}

/// Each thread is woken right after it was told to end, so that it reads that.
pub proof fn law_threads_are_woken_after_they_are_told(pool: WorkerPool, i: int)
    requires
        pool.workers@.len() <= usize::MAX,
        0 <= i < pool.shutdown_work().len(),
        pool.shutdown_work()[i] is SendShutdown,
    ensures
        i + 1 < pool.shutdown_work().len(),
        pool.shutdown_work()[i + 1] == (PoolEffect::Kick {
            worker: pool.shutdown_work()[i]->SendShutdown_worker,
        }),
{
    let threads = running(pool.workers@, pool.workers@.len() as int);
    lemma_signals_len(threads);
    if i >= signals(threads).len() {
        assert(pool.shutdown_work()[i] == joins(threads)[i - signals(threads).len()]);
    } else {
        lemma_signals(threads, i / 2);
        assert(i == 2 * (i / 2) || i == 2 * (i / 2) + 1);
    }
}

} // verus!
