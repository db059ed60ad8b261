//! What holds of a whole pass over a queue, whatever the host reports.

use vstd::prelude::*;

use crate::config::FileEngineType;
use crate::error::InvalidAvailIdx;
use crate::metrics::BlockDeviceMetrics;
use crate::queue::{PassResult, PoppedChain, ProcessingResult, QueueOutcome, QueuePass, QueueStep};

verus! {

/// A pass over the queue of the given number and engine, by the reports that
/// the host made one after the other.
pub struct QueueRun {
    pub queue_index: u16,
    pub engine: FileEngineType,
    pub outcomes: Seq<QueueOutcome>,
}

impl QueueRun {
    /// The pass after the first `n` reports.
    pub open spec fn at(self, n: int) -> QueuePass
        decreases n,
    {
        if n <= 0 {
            QueuePass::first()
        } else {
            self.at(n - 1).after(self.outcomes[n - 1], self.queue_index, self.engine)
        }
    }

    /// Whether each report is one on the step that was pending.
    pub open spec fn legal(self) -> bool {
        forall|i: int|
            0 <= i < self.outcomes.len() ==> (#[trigger] self.at(i)).pending.awaits(
                self.outcomes[i],
            )
    }

    /// Whether the pass is over.
    pub open spec fn over(self) -> bool {
        self.at(self.outcomes.len() as int).pending is Finished
    }

    /// The chains that were taken by the first `n` reports, in order.
    pub open spec fn popped(self, n: int) -> Seq<u16>
        decreases n,
    {
        if n <= 0 {
            Seq::empty()
        } else {
            match self.outcomes[n - 1] {
                QueueOutcome::Popped(chain) => self.popped(n - 1).push(chain.head),
                _ => self.popped(n - 1),
            }
        }
    }

    /// The chain that report `i` settles: it was put into the used ring, handed
    /// to the engine, or put back into the available ring.
    pub open spec fn settles(self, i: int) -> Option<u16> {
        match self.at(i).pending {
            QueueStep::AddUsed { head, len } => Some(head),
            QueueStep::UndoPop { head } => Some(head),
            QueueStep::Process { head } => if self.outcomes[i] == QueueOutcome::Processed(
                ProcessingResult::Submitted,
            ) {
                Some(head)
            } else {
                None
            },
            _ => None,
        }
    }

    /// The chains that the first `n` reports settle, in order.
    pub open spec fn settled(self, n: int) -> Seq<u16>
        decreases n,
    {
        if n <= 0 {
            Seq::empty()
        } else {
            match self.settles(n - 1) {
                Some(head) => self.settled(n - 1).push(head),
                None => self.settled(n - 1),
            }
        }
    }

    /// The chain that the pass holds and has not settled.
    pub open spec fn in_hand(self, n: int) -> Option<u16> {
        match self.at(n).pending {
            QueueStep::Parse { head } => Some(head),
            QueueStep::RateLimit { head } => Some(head),
            QueueStep::Process { head } => Some(head),
            QueueStep::UndoPop { head } => Some(head),
            QueueStep::AddUsed { head, len } => Some(head),
            _ => None,
        }
    }

    /// The counters after the first `n` reports.
    pub open spec fn metrics(self, before: BlockDeviceMetrics, n: int) -> BlockDeviceMetrics
        decreases n,
    {
        if n <= 0 {
            before
        } else {
            self.at(n - 1).counted(
                self.outcomes[n - 1],
                self.at(n),
                self.metrics(before, n - 1),
            )
        }
    }

    proof fn lemma_accounts(self, n: int)
        requires
            self.legal(),
            0 <= n <= self.outcomes.len(),
        ensures
            self.popped(n) == match self.in_hand(n) {
                Some(head) => self.settled(n).push(head),
                None => self.settled(n),
            },
        decreases n,
    {
        if n > 0 {
            self.lemma_accounts(n - 1);
            assert(self.at(n - 1).pending.awaits(self.outcomes[n - 1]));
        }
    }

    /// Whether the pass has turned to showing the used ring or is over.
    spec fn winding_down(self, n: int) -> bool {
        match self.at(n).pending {
            QueueStep::UndoPop { .. } => true,
            QueueStep::AdvanceUsedRing => true,
            QueueStep::PrepareKick => true,
            QueueStep::TriggerInterrupt { .. } => true,
            QueueStep::KickSubmissionQueue => true,
            QueueStep::Finished(_) => true,
            _ => false,
        }
    }

    proof fn lemma_winds_down(self, i: int, n: int)
        requires
            self.legal(),
            0 <= i <= n <= self.outcomes.len(),
            self.winding_down(i),
        ensures
            self.winding_down(n),
            self.popped(n) == self.popped(i),
            self.at(n).used_any == self.at(i).used_any,
        decreases n - i,
    {
        if i < n {
            self.lemma_winds_down(i, n - 1);
            assert(self.at(n - 1).pending.awaits(self.outcomes[n - 1]));
        }
    }

    /// Whether one of the first `n` steps puts a chain into the used ring.
    pub open spec fn uses_any(self, n: int) -> bool {
        exists|i: int| 0 <= i < n && (#[trigger] self.at(i)).pending is AddUsed
    }

    /// Whether one of the first `n` steps asks if the driver wants to be
    /// interrupted.
    pub open spec fn asks_for_kick(self, n: int) -> bool {
        exists|i: int| 0 <= i < n && (#[trigger] self.at(i)).pending is PrepareKick
    }

    /// Whether the pass has left that question behind.
    spec fn kick_decided(self, n: int) -> bool {
        match self.at(n).pending {
            QueueStep::TriggerInterrupt { .. } => true,
            QueueStep::KickSubmissionQueue => true,
            QueueStep::Finished(PassResult::Served) => true,
            _ => false,
        }
    }

    proof fn lemma_used_any(self, n: int)
        requires
            self.legal(),
            0 <= n <= self.outcomes.len(),
        ensures
            self.at(n).used_any == (self.uses_any(n) || self.at(n).pending is AddUsed),
        decreases n,
    {
        if n > 0 {
            self.lemma_used_any(n - 1);
            assert(self.at(n - 1).pending.awaits(self.outcomes[n - 1]));
            if self.uses_any(n) {
                let i = choose|i: int| 0 <= i < n && (#[trigger] self.at(i)).pending is AddUsed;
                if i < n - 1 {
                    assert(self.uses_any(n - 1));
                }
            }
            if self.at(n - 1).used_any {
                if self.uses_any(n - 1) {
                    let i = choose|i: int|
                        0 <= i < n - 1 && (#[trigger] self.at(i)).pending is AddUsed;
                    assert(0 <= i < n && self.at(i).pending is AddUsed);
                } else {
                    assert(self.at(n - 1).pending is AddUsed);
                }
            }
        }
    }
}

/// Each chain that a pass takes is settled exactly once, and in the order in
/// which the chains were taken: it is put into the used ring, handed to the
/// engine, or put back.
pub proof fn law_every_chain_is_settled_once(run: QueueRun)
    requires
        run.legal(),
        run.over(),
    ensures
        run.settled(run.outcomes.len() as int) == run.popped(run.outcomes.len() as int),
{
    run.lemma_accounts(run.outcomes.len() as int);
}

/// A chain is put back only if it was the last one taken: after that the pass
/// takes no other.
pub proof fn law_only_the_last_chain_is_put_back(run: QueueRun, i: int)
    requires
        run.legal(),
        0 <= i < run.outcomes.len(),
        run.at(i).pending is UndoPop,
    ensures
        run.popped(i).len() > 0,
        run.at(i).pending == (QueueStep::UndoPop { head: run.popped(i).last() }),
        run.popped(run.outcomes.len() as int) == run.popped(i),
{
    run.lemma_accounts(i);
    run.lemma_winds_down(i, run.outcomes.len() as int);
}

/// The driver is interrupted only for the queue of the pass, only after a chain
/// was put into the used ring, and only if the driver wants it.
pub proof fn law_interrupt_follows_use(run: QueueRun, i: int)
    requires
        run.legal(),
        0 <= i <= run.outcomes.len(),
        run.at(i).pending is TriggerInterrupt,
    ensures
        i > 0,
        run.at(i).pending == (QueueStep::TriggerInterrupt { queue_index: run.queue_index }),
        run.at(i - 1).pending is PrepareKick,
        run.outcomes[i - 1] == QueueOutcome::KickWanted(true),
        run.uses_any(i),
    decreases i,
{
    if i > 0 {
        assert(run.at(i - 1).pending.awaits(run.outcomes[i - 1]));
        lemma_kick_follows_use(run, i - 1);
        let j = choose|j: int| 0 <= j < i - 1 && (#[trigger] run.at(j)).pending is AddUsed;
        assert(0 <= j < i && run.at(j).pending is AddUsed);
    }
}

proof fn lemma_kick_follows_use(run: QueueRun, i: int)
    requires
        run.legal(),
        0 <= i <= run.outcomes.len(),
        run.at(i).pending is PrepareKick,
    ensures
        run.uses_any(i),
{
    run.lemma_used_any(i);
    if i > 0 {
        assert(run.at(i - 1).pending.awaits(run.outcomes[i - 1]));
    }
}

/// A pass that used a chain asks whether the driver wants to be interrupted
/// before it is over, unless a broken available ring ends it at once.
pub proof fn law_use_is_announced(run: QueueRun)
    requires
        run.legal(),
        run.at(run.outcomes.len() as int).pending == QueueStep::Finished(PassResult::Served),
        run.uses_any(run.outcomes.len() as int),
    ensures
        run.asks_for_kick(run.outcomes.len() as int),
{
    let n = run.outcomes.len() as int;
    run.lemma_used_any(n);
    lemma_served_asked(run, n);
}

proof fn lemma_served_asked(run: QueueRun, n: int)
    requires
        run.legal(),
        0 <= n <= run.outcomes.len(),
        run.at(n).used_any,
        run.kick_decided(n),
    ensures
        run.asks_for_kick(n),
    decreases n,
{
    if n > 0 {
        assert(run.at(n - 1).pending.awaits(run.outcomes[n - 1]));
        if run.at(n - 1).pending is PrepareKick {
            assert(0 <= n - 1 < n && run.at(n - 1).pending is PrepareKick);
        } else {
            lemma_served_asked(run, n - 1);
            let i = choose|i: int| 0 <= i < n - 1 && (#[trigger] run.at(i)).pending is PrepareKick;
            assert(0 <= i < n && run.at(i).pending is PrepareKick);
        }
    }
}

/// A pass that ends without having put a chain into the used ring is counted
/// once as one that found no buffer. No other pass is.
pub proof fn law_empty_passes_are_counted_once(run: QueueRun, before: BlockDeviceMetrics)
    requires
        run.legal(),
        run.over(),
    ensures
        run.metrics(before, run.outcomes.len() as int).no_avail_buffer == if run.at(
            run.outcomes.len() as int,
        ).pending == QueueStep::Finished(PassResult::Served) && !run.uses_any(
            run.outcomes.len() as int,
        ) {
            crate::metrics::counted(before.no_avail_buffer, 1)
        } else {
            before.no_avail_buffer
        },
{
    let n = run.outcomes.len() as int;
    run.lemma_used_any(n);
    lemma_no_avail_buffer(run, before, n);
}

proof fn lemma_no_avail_buffer(run: QueueRun, before: BlockDeviceMetrics, n: int)
    requires
        run.legal(),
        0 <= n <= run.outcomes.len(),
    ensures
        run.metrics(before, n).no_avail_buffer == if run.at(n).pending == QueueStep::Finished(
            PassResult::Served,
        ) && !run.at(n).used_any {
            crate::metrics::counted(before.no_avail_buffer, 1)
        } else {
            before.no_avail_buffer
        },
        run.at(n).pending is PrepareKick || run.at(n).pending is TriggerInterrupt
            ==> run.at(n).used_any,
    decreases n,
{
    if n > 0 {
        lemma_no_avail_buffer(run, before, n - 1);
        assert(run.at(n - 1).pending.awaits(run.outcomes[n - 1]));
    }
}

/// A request that a full engine refuses puts its chain back, and so does one
/// that the rate limiter holds back.
pub proof fn law_refused_chains_are_put_back(run: QueueRun, i: int)
    requires
        run.legal(),
        0 <= i < run.outcomes.len(),
        run.outcomes[i] == QueueOutcome::RateLimited(true) || run.outcomes[i]
            == QueueOutcome::Processed(ProcessingResult::Throttled),
    ensures
        run.popped(i).len() > 0,
        run.at(i + 1).pending == (QueueStep::UndoPop { head: run.popped(i).last() }),
{
    run.lemma_accounts(i);
    assert(run.at(i).pending.awaits(run.outcomes[i]));
}

/// An entry of the used ring belongs to the chain that was taken last. Its length
/// is the one that the host reported for the finished request, or zero where the
/// request could not be read.
pub proof fn law_used_entries_carry_their_request(run: QueueRun, i: int)
    requires
        run.legal(),
        0 <= i <= run.outcomes.len(),
        run.at(i).pending is AddUsed,
    ensures
        i > 0,
        run.popped(i).len() > 0,
        run.at(i).pending == (QueueStep::AddUsed {
            head: run.popped(i).last(),
            len: match run.outcomes[i - 1] {
                QueueOutcome::Processed(ProcessingResult::Executed(finished)) =>
                    finished.num_bytes_to_mem,
                _ => 0,
            },
        }),
        run.outcomes[i - 1] == QueueOutcome::Parsed(false) || run.outcomes[i - 1] matches
            QueueOutcome::Processed(ProcessingResult::Executed(_)),
{
    run.lemma_accounts(i);
    if i > 0 {
        assert(run.at(i - 1).pending.awaits(run.outcomes[i - 1]));
    }
}

/// A pass takes chains until there is none left, the rate limiter holds a request
/// back or the engine is full. Only then does it turn to the used ring.
pub proof fn law_pass_goes_on_until_it_is_stopped(run: QueueRun, i: int)
    requires
        run.legal(),
        0 <= i <= run.outcomes.len(),
        run.at(i).pending is AdvanceUsedRing,
    ensures
        i > 0,
        run.outcomes[i - 1] is Empty || {
            &&& i > 1
            &&& run.at(i - 1).pending is UndoPop
            &&& run.outcomes[i - 2] == QueueOutcome::RateLimited(true) || run.outcomes[i - 2]
                == QueueOutcome::Processed(ProcessingResult::Throttled)
        },
{
    if i > 0 {
        assert(run.at(i - 1).pending.awaits(run.outcomes[i - 1]));
        if i > 1 {
            assert(run.at(i - 2).pending.awaits(run.outcomes[i - 2]));
        }
    }
}

/// A pass is broken exactly if the available ring is, and then it is over at
/// once.
pub proof fn law_broken_ring_breaks_the_pass(run: QueueRun, i: int, error: InvalidAvailIdx)
    requires
        run.legal(),
        0 <= i < run.outcomes.len(),
    ensures
        run.at(i + 1).pending == QueueStep::Finished(PassResult::Broken(error)) <==> run.outcomes[i]
            == QueueOutcome::BadIndex(error),
        !(run.at(i).pending is Finished),
{
    assert(run.at(i).pending.awaits(run.outcomes[i]));
}

/// A request is handed to the engine only if it was taken, could be read, and the
/// rate limiter let it pass, in this order and for the same chain.
pub proof fn law_only_admitted_requests_are_processed(run: QueueRun, i: int)
    requires
        run.legal(),
        0 <= i <= run.outcomes.len(),
        run.at(i).pending is Process,
    ensures
        i >= 3,
        run.outcomes[i - 1] == QueueOutcome::RateLimited(false),
        run.outcomes[i - 2] == QueueOutcome::Parsed(true),
        run.outcomes[i - 3] matches QueueOutcome::Popped(chain) && run.at(i).pending == (
        QueueStep::Process { head: chain.head }),
{
    if i > 0 {
        assert(run.at(i - 1).pending.awaits(run.outcomes[i - 1]));
        if i > 1 {
            assert(run.at(i - 2).pending.awaits(run.outcomes[i - 2]));
            if i > 2 {
                assert(run.at(i - 3).pending.awaits(run.outcomes[i - 3]));
            }
        }
    }
}

/// A request that could be read and that the rate limiter lets pass is handed to
/// the engine.
pub proof fn law_admitted_requests_are_processed(run: QueueRun, i: int, chain: PoppedChain)
    requires
        run.legal(),
        0 <= i,
        i + 2 < run.outcomes.len(),
        run.outcomes[i] == QueueOutcome::Popped(chain),
        run.outcomes[i + 1] == QueueOutcome::Parsed(true),
        run.outcomes[i + 2] == QueueOutcome::RateLimited(false),
    ensures
        run.at(i + 3).pending == (QueueStep::Process { head: chain.head }),
{
    assert(run.at(i).pending.awaits(run.outcomes[i]));
    assert(run.at(i + 1).pending.awaits(run.outcomes[i + 1]));
    assert(run.at(i + 2).pending.awaits(run.outcomes[i + 2]));
}

/// Whether the pass has shown the used ring.
spec fn has_shown(step: QueueStep) -> bool {
    match step {
        QueueStep::PrepareKick => true,
        QueueStep::TriggerInterrupt { .. } => true,
        QueueStep::KickSubmissionQueue => true,
        QueueStep::Finished(PassResult::Served) => true,
        _ => false,
    }
}

proof fn lemma_shown_stays(run: QueueRun, i: int, n: int)
    requires
        run.legal(),
        0 <= i <= n <= run.outcomes.len(),
        has_shown(run.at(i).pending),
    ensures
        has_shown(run.at(n).pending),
    decreases n - i,
{
    if i < n {
        lemma_shown_stays(run, i, n - 1);
        assert(run.at(n - 1).pending.awaits(run.outcomes[n - 1]));
    }
}

/// Whether step `k` shows the used ring.
pub open spec fn shows_used_ring(run: QueueRun, k: int) -> bool {
    run.at(k).pending is AdvanceUsedRing
}

proof fn lemma_shown(run: QueueRun, n: int) -> (k: int)
    requires
        run.legal(),
        0 <= n <= run.outcomes.len(),
        has_shown(run.at(n).pending),
    ensures
        0 <= k < n,
        shows_used_ring(run, k),
    decreases n,
{
    if n <= 0 {
        0
    } else {
        assert(run.at(n - 1).pending.awaits(run.outcomes[n - 1]));
        if run.at(n - 1).pending is AdvanceUsedRing {
            n - 1
        } else {
            lemma_shown(run, n - 1)
        }
    }
}

/// A pass that is not broken shows the used ring to the driver, exactly once, and
/// after every chain that it put there.
pub proof fn law_used_ring_is_shown_once(run: QueueRun, i: int, j: int)
    requires
        run.legal(),
        run.at(run.outcomes.len() as int).pending == QueueStep::Finished(PassResult::Served),
        0 <= i < run.outcomes.len(),
        0 <= j < run.outcomes.len(),
    ensures
        exists|k: int| 0 <= k < run.outcomes.len() && #[trigger] shows_used_ring(run, k),
        shows_used_ring(run, i) && shows_used_ring(run, j) ==> i == j,
        shows_used_ring(run, i) && run.at(j).pending is AddUsed ==> j < i,
{
    let k = lemma_shown(run, run.outcomes.len() as int);
    if shows_used_ring(run, i) && i < j {
        assert(run.at(i).pending.awaits(run.outcomes[i]));
        lemma_shown_stays(run, i + 1, j);
    }
    if shows_used_ring(run, j) && j < i {
        assert(run.at(j).pending.awaits(run.outcomes[j]));
        lemma_shown_stays(run, j + 1, i);
    }
}

/// An engine that completes later is told to start as the last thing of every
/// pass that is not broken. Another engine never is.
pub proof fn law_later_engines_are_started(run: QueueRun, i: int)
    requires
        run.legal(),
        0 <= i < run.outcomes.len(),
    ensures
        run.at(i + 1).pending == QueueStep::Finished(PassResult::Served) && run.engine is Async
            ==> run.at(i).pending is KickSubmissionQueue,
        run.at(i).pending is KickSubmissionQueue ==> run.engine is Async,
{
    assert(run.at(i).pending.awaits(run.outcomes[i]));
    if i > 0 {
        assert(run.at(i - 1).pending.awaits(run.outcomes[i - 1]));
    }
}

/// A driver that wants to be interrupted is, for the queue of the pass.
pub proof fn law_wanted_interrupts_are_raised(run: QueueRun, i: int)
    requires
        run.legal(),
        0 <= i < run.outcomes.len(),
        run.outcomes[i] == QueueOutcome::KickWanted(true),
    ensures
        run.at(i + 1).pending == (QueueStep::TriggerInterrupt { queue_index: run.queue_index }),
{
    assert(run.at(i).pending.awaits(run.outcomes[i]));
}

/// What a finished request leads to: its chain goes into the used ring with the
/// length that the host reported. A submitted one makes room for the next chain.
pub proof fn law_what_becomes_of_a_request(run: QueueRun, i: int)
    requires
        run.legal(),
        0 <= i < run.outcomes.len(),
        run.outcomes[i] is Processed,
    ensures
        run.popped(i).len() > 0,
        run.outcomes[i] matches QueueOutcome::Processed(ProcessingResult::Executed(finished))
            ==> run.at(i + 1).pending == (QueueStep::AddUsed {
            head: run.popped(i).last(),
            len: finished.num_bytes_to_mem,
        }),
        run.outcomes[i] == QueueOutcome::Processed(ProcessingResult::Submitted) ==> run.at(
            i + 1,
        ).pending is Pop,
{
    run.lemma_accounts(i);
    assert(run.at(i).pending.awaits(run.outcomes[i]));
}

/// A request that could not be read is used up with no bytes written.
pub proof fn law_unreadable_requests_are_used_up(run: QueueRun, i: int)
    requires
        run.legal(),
        0 <= i < run.outcomes.len(),
        run.outcomes[i] == QueueOutcome::Parsed(false),
    ensures
        run.popped(i).len() > 0,
        run.at(i + 1).pending == (QueueStep::AddUsed { head: run.popped(i).last(), len: 0 }),
{
    run.lemma_accounts(i);
    assert(run.at(i).pending.awaits(run.outcomes[i]));
}

/// Each report goes into the counter that it concerns and into no other: chains
/// that wait, requests that could not be read, requests that the rate limiter held
/// back, and interrupts that could not be raised.
pub proof fn law_reports_are_counted(run: QueueRun, before: BlockDeviceMetrics, i: int)
    requires
        run.legal(),
        0 <= i < run.outcomes.len(),
    ensures
        ({
            let (m, n) = (run.metrics(before, i), run.metrics(before, i + 1));
            let outcome = run.outcomes[i];
            &&& outcome matches QueueOutcome::Popped(chain) ==> (m.remaining_reqs_count
                + chain.remaining <= u64::MAX ==> n.remaining_reqs_count == m.remaining_reqs_count
                + chain.remaining)
            &&& !(outcome is Popped) ==> n.remaining_reqs_count == m.remaining_reqs_count
            &&& m.execute_fails < u64::MAX ==> n.execute_fails == m.execute_fails + if outcome
                == QueueOutcome::Parsed(false) {
                1int
            } else {
                0
            }
            &&& m.rate_limiter_throttled_events < u64::MAX ==> n.rate_limiter_throttled_events
                == m.rate_limiter_throttled_events + if outcome == QueueOutcome::RateLimited(
                true,
            ) {
                1int
            } else {
                0
            }
            &&& m.event_fails < u64::MAX ==> n.event_fails == m.event_fails + if outcome
                == QueueOutcome::Triggered(false) {
                1int
            } else {
                0
            }
            &&& n.activate_fails == m.activate_fails
            &&& n.cfg_fails == m.cfg_fails
            &&& n.queue_event_count == m.queue_event_count
            &&& n.rate_limiter_event_count == m.rate_limiter_event_count
            &&& n.update_count == m.update_count
            &&& n.io_engine_throttled_events == m.io_engine_throttled_events
        }),
{
}

/// A pass begins by taking a chain, and has used none.
pub proof fn law_passes_begin_with_a_chain()
    ensures
        QueuePass::first().pending is Pop,
        !QueuePass::first().used_any,
{
}

/// A pass that is not over takes every report that its step can have, and no
/// report on another step. A pass that is over takes none.
pub proof fn law_which_reports_a_step_takes(step: QueueStep, outcome: QueueOutcome)
    ensures
        step is Finished ==> !step.awaits(outcome),
        outcome is Popped || outcome is Empty || outcome is BadIndex ==> (step.awaits(outcome)
            <==> step is Pop),
        outcome is Parsed ==> (step.awaits(outcome) <==> step is Parse),
        outcome is RateLimited ==> (step.awaits(outcome) <==> step is RateLimit),
        outcome is Processed ==> (step.awaits(outcome) <==> step is Process),
        outcome is KickWanted ==> (step.awaits(outcome) <==> step is PrepareKick),
        outcome is Triggered ==> (step.awaits(outcome) <==> step is TriggerInterrupt),
        outcome is Performed ==> (step.awaits(outcome) <==> step is UndoPop || step is AddUsed
            || step is AdvanceUsedRing || step is KickSubmissionQueue),
{
}

} // verus!
