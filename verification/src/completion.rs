//! Collecting what an engine has completed: which step follows which.

use vstd::prelude::*;

use crate::error::{AsyncIoError, BlockIoError, IoErr, OsError};
use crate::metrics::{count, BlockDeviceMetrics};
use crate::queue::FinishedRequest;

verus! {

/// What an engine reports of a request that it completed.
#[derive(Clone, Copy, Debug, PartialEq, Eq, Structural)]
pub enum Completion {
    /// Number of bytes that were read or written.
    Count(u32),
    /// The error of the operating system.
    Error(OsError),
}

/// What a completed request is finished with.
#[derive(Clone, Copy, Debug, PartialEq, Eq, Structural)]
pub enum IoResult {
    /// Number of bytes that were read or written.
    Count(u32),
    /// Why the request failed.
    Error(IoErr),
}

impl Completion {
    /// What the request is finished with: an error is one of the engine.
    pub open spec fn finishes_with(self) -> IoResult {
        match self {
            Completion::Count(count) => IoResult::Count(count),
            Completion::Error(error) => IoResult::Error(
                IoErr::FileEngine(BlockIoError::Async(AsyncIoError::IO(error))),
            ),
        }
    }

    /// What the request is finished with.
    pub fn io_result(self) -> (result: IoResult)
        ensures
            result == self.finishes_with(),
    {
        match self {
            Completion::Count(count) => IoResult::Count(count),
            Completion::Error(error) => IoResult::Error(
                IoErr::FileEngine(BlockIoError::Async(AsyncIoError::IO(error))),
            ),
        }
    }
}

/// A step of a pass over the completions of an engine.
#[derive(Clone, Copy, Debug, PartialEq, Eq, Structural)]
pub enum CompletionStep {
    /// Take the next completion.
    Pop,
    /// Finish the request of the completion that was taken last.
    Finish {
        /// What it is finished with.
        result: IoResult,
    },
    /// Put the chain of a finished request into the used ring.
    AddUsed {
        /// Head of the chain.
        head: u16,
        /// Number of bytes that were written to it.
        len: u32,
    },
    /// Show the used ring to the driver.
    AdvanceUsedRing,
    /// Find out whether the driver wants to be interrupted.
    PrepareKick,
    /// Interrupt the driver for this queue.
    TriggerInterrupt {
        /// Number of the queue.
        queue_index: u16,
    },
    /// The pass is over.
    Finished,
}

/// What the host reports of the step that was pending.
#[derive(Clone, Copy, Debug, PartialEq, Eq, Structural)]
pub enum CompletionOutcome {
    /// A completion was taken.
    Taken(Completion),
    /// Its request was finished.
    Completed(FinishedRequest),
    /// There was no completion.
    Empty,
    /// The completions could not be read.
    Failed,
    /// Whether the driver wants to be interrupted.
    KickWanted(bool),
    /// Whether the interrupt was raised.
    Triggered(bool),
    /// The step is done, and nothing depends on how it went.
    Performed,
}

/// A pass over the completions of an engine.
#[derive(Clone, Copy, Debug, PartialEq, Eq, Structural)]
pub struct CompletionPass {
    /// The step that the host performs next.
    pub pending: CompletionStep,
}

impl CompletionStep {
    /// Whether `outcome` is a report on this step.
    pub open spec fn awaits(self, outcome: CompletionOutcome) -> bool {
        match self {
            CompletionStep::Pop => outcome is Taken || outcome is Empty || outcome is Failed,
            CompletionStep::Finish { .. } => outcome is Completed,
            CompletionStep::AddUsed { .. } => outcome is Performed,
            CompletionStep::AdvanceUsedRing => outcome is Performed,
            CompletionStep::PrepareKick => outcome is KickWanted,
            CompletionStep::TriggerInterrupt { .. } => outcome is Triggered,
            CompletionStep::Finished => false,
        }
    }

    /// The step that follows `outcome`, for the queue of the given number.
    pub open spec fn after(self, outcome: CompletionOutcome, queue_index: u16) -> CompletionStep {
        match self {
            CompletionStep::Pop => match outcome {
                CompletionOutcome::Taken(completion) => CompletionStep::Finish {
                    result: completion.finishes_with(),
                },
                _ => CompletionStep::AdvanceUsedRing,
            },
            CompletionStep::Finish { .. } => match outcome {
                CompletionOutcome::Completed(finished) => CompletionStep::AddUsed {
                    head: finished.desc_idx,
                    len: finished.num_bytes_to_mem,
                },
                _ => CompletionStep::AdvanceUsedRing,
            },
            CompletionStep::AddUsed { .. } => CompletionStep::Pop,
            CompletionStep::AdvanceUsedRing => CompletionStep::PrepareKick,
            CompletionStep::PrepareKick => if outcome == CompletionOutcome::KickWanted(true) {
                CompletionStep::TriggerInterrupt { queue_index }
            } else {
                CompletionStep::Finished
            },
            CompletionStep::TriggerInterrupt { .. } => CompletionStep::Finished,
            CompletionStep::Finished => CompletionStep::Finished,
        }
    }
}

impl CompletionPass {
    /// Starts a pass: the first step is to take a completion.
    pub fn new() -> (pass: CompletionPass)
        ensures
            pass.pending == CompletionStep::Pop,
    {
        CompletionPass { pending: CompletionStep::Pop }
    }

    /// Takes the report on the pending step and decides the next one.
    pub fn advance(
        &mut self,
        outcome: CompletionOutcome,
        queue_index: u16,
        metrics: &mut BlockDeviceMetrics,
    )
        requires
            old(self).pending.awaits(outcome),
        ensures
            final(self).pending == old(self).pending.after(outcome, queue_index),
            *final(metrics) == if outcome == CompletionOutcome::Triggered(false) {
                BlockDeviceMetrics {
                    event_fails: crate::metrics::counted(old(metrics).event_fails, 1),
                    ..*old(metrics)
                }
            } else {
                *old(metrics)
            },
    {
        self.pending = match self.pending {
            CompletionStep::Pop => match outcome {
                CompletionOutcome::Taken(completion) => CompletionStep::Finish {
                    result: completion.io_result(),
                },
                _ => CompletionStep::AdvanceUsedRing,
            },
            CompletionStep::Finish { .. } => match outcome {
                CompletionOutcome::Completed(finished) => CompletionStep::AddUsed {
                    head: finished.desc_idx,
                    len: finished.num_bytes_to_mem,
                },
                _ => CompletionStep::AdvanceUsedRing,
            },
            CompletionStep::AddUsed { .. } => CompletionStep::Pop,
            CompletionStep::AdvanceUsedRing => CompletionStep::PrepareKick,
            CompletionStep::PrepareKick => match outcome {
                CompletionOutcome::KickWanted(true) => CompletionStep::TriggerInterrupt {
                    queue_index,
                },
                _ => CompletionStep::Finished,
            },
            CompletionStep::TriggerInterrupt { .. } => CompletionStep::Finished,
            CompletionStep::Finished => CompletionStep::Finished,
        };
        if let CompletionOutcome::Triggered(false) = outcome {
            count(&mut metrics.event_fails, 1);
        }
    }
}

/// A pass over the completions, by the reports that the host made one after the
/// other.
pub struct CompletionRun {
    pub queue_index: u16,
    pub outcomes: Seq<CompletionOutcome>,
}

impl CompletionRun {
    /// The step that is pending after the first `n` reports.
    pub open spec fn at(self, n: int) -> CompletionStep
        decreases n,
    {
        if n <= 0 {
            CompletionStep::Pop
        } else {
            self.at(n - 1).after(self.outcomes[n - 1], self.queue_index)
        }
    }

    /// Whether each report is one on the step that was pending.
    pub open spec fn legal(self) -> bool {
        forall|i: int|
            0 <= i < self.outcomes.len() ==> (#[trigger] self.at(i)).awaits(self.outcomes[i])
    }

    /// The completions that were taken by the first `n` reports, in order, as
    /// their requests are to be finished.
    pub open spec fn taken(self, n: int) -> Seq<IoResult>
        decreases n,
    {
        if n <= 0 {
            Seq::empty()
        } else {
            match self.outcomes[n - 1] {
                CompletionOutcome::Taken(completion) => self.taken(n - 1).push(
                    completion.finishes_with(),
                ),
                _ => self.taken(n - 1),
            }
        }
    }

    /// What requests were finished with by the first `n` reports, in order.
    pub open spec fn finished_with(self, n: int) -> Seq<IoResult>
        decreases n,
    {
        if n <= 0 {
            Seq::empty()
        } else {
            match self.at(n - 1) {
                CompletionStep::Finish { result } => self.finished_with(n - 1).push(result),
                _ => self.finished_with(n - 1),
            }
        }
    }

    proof fn lemma_finishes(self, n: int)
        requires
            self.legal(),
            0 <= n <= self.outcomes.len(),
        ensures
            self.taken(n) == match self.at(n) {
                CompletionStep::Finish { result } => self.finished_with(n).push(result),
                _ => self.finished_with(n),
            },
        decreases n,
    {
        if n > 0 {
            self.lemma_finishes(n - 1);
            assert(self.at(n - 1).awaits(self.outcomes[n - 1]));
        }
    }

    /// The requests that were finished by the first `n` reports, in order.
    pub open spec fn finished(self, n: int) -> Seq<(u16, u32)>
        decreases n,
    {
        if n <= 0 {
            Seq::empty()
        } else {
            match self.outcomes[n - 1] {
                CompletionOutcome::Completed(request) => self.finished(n - 1).push(
                    (request.desc_idx, request.num_bytes_to_mem),
                ),
                _ => self.finished(n - 1),
            }
        }
    }

    /// What was put into the used ring by the first `n` reports, in order.
    pub open spec fn used(self, n: int) -> Seq<(u16, u32)>
        decreases n,
    {
        if n <= 0 {
            Seq::empty()
        } else {
            match self.at(n - 1) {
                CompletionStep::AddUsed { head, len } => self.used(n - 1).push((head, len)),
                _ => self.used(n - 1),
            }
        }
    }

    proof fn lemma_accounts(self, n: int)
        requires
            self.legal(),
            0 <= n <= self.outcomes.len(),
        ensures
            self.finished(n) == match self.at(n) {
                CompletionStep::AddUsed { head, len } => self.used(n).push((head, len)),
                _ => self.used(n),
            },
        decreases n,
    {
        if n > 0 {
            self.lemma_accounts(n - 1);
            assert(self.at(n - 1).awaits(self.outcomes[n - 1]));
        }
    }
}

/// Each finished request goes into the used ring exactly once, with the number
/// of bytes that it wrote, and in the order of the completions.
pub proof fn law_every_completion_is_used(run: CompletionRun)
    requires
        run.legal(),
        run.at(run.outcomes.len() as int) is Finished,
    ensures
        run.used(run.outcomes.len() as int) == run.finished(run.outcomes.len() as int),
{
    run.lemma_accounts(run.outcomes.len() as int);
}

/// Each completion that is taken finishes its request exactly once, in the order
/// of the completions: with its count, or with its error as one of the engine.
pub proof fn law_every_completion_finishes_its_request(run: CompletionRun)
    requires
        run.legal(),
        run.at(run.outcomes.len() as int) is Finished,
    ensures
        run.finished_with(run.outcomes.len() as int) == run.taken(run.outcomes.len() as int),
{
    run.lemma_finishes(run.outcomes.len() as int);
}

/// A completion finishes its request with the count that the engine reported,
/// whatever it is, or with the error of the operating system as one of the
/// engine. Different reports finish a request differently.
pub proof fn law_completions_keep_their_report(count: u32, error: OsError, a: Completion, b: Completion)
    ensures
        Completion::Count(count).finishes_with() == IoResult::Count(count),
        Completion::Error(error).finishes_with() matches IoResult::Error(
            IoErr::FileEngine(BlockIoError::Async(AsyncIoError::IO(carried))),
        ) && carried == error,
        a.finishes_with() == b.finishes_with() ==> a == b,
{
}

/// A request is finished with what its completion reported: the same count, or an
/// error that carries the same error of the operating system.
pub proof fn law_requests_are_finished_with_their_report(run: CompletionRun, i: int)
    requires
        run.legal(),
        0 <= i < run.outcomes.len(),
        run.outcomes[i] is Taken,
    ensures
        run.outcomes[i] matches CompletionOutcome::Taken(Completion::Count(count)) ==> run.at(i + 1)
            == (CompletionStep::Finish { result: IoResult::Count(count) }),
        run.outcomes[i] matches CompletionOutcome::Taken(Completion::Error(error)) ==> run.at(i + 1)
            == (CompletionStep::Finish {
            result: IoResult::Error(IoErr::FileEngine(BlockIoError::Async(AsyncIoError::IO(error)))),
        }),
{
    assert(run.at(i).awaits(run.outcomes[i]));
}

/// A finished request goes into the used ring under its chain and with the bytes
/// that it wrote.
pub proof fn law_finished_requests_are_used(run: CompletionRun, i: int, finished: FinishedRequest)
    requires
        run.legal(),
        0 <= i < run.outcomes.len(),
        run.outcomes[i] == CompletionOutcome::Completed(finished),
    ensures
        run.at(i + 1) == (CompletionStep::AddUsed {
            head: finished.desc_idx,
            len: finished.num_bytes_to_mem,
        }),
{
    assert(run.at(i).awaits(run.outcomes[i]));
}

/// Completions are taken until there is none left or they cannot be read. Only
/// then is the used ring shown, and then the driver is asked whether it wants to
/// be interrupted.
pub proof fn law_completions_are_taken_to_the_end(run: CompletionRun, i: int)
    requires
        run.legal(),
        0 <= i < run.outcomes.len(),
    ensures
        run.at(i + 1) is AdvanceUsedRing <==> run.outcomes[i] is Empty || run.outcomes[i] is Failed,
        run.at(i + 1) is PrepareKick <==> run.at(i) is AdvanceUsedRing,
        run.at(i) is AddUsed ==> run.at(i + 1) is Pop,
{
    assert(run.at(i).awaits(run.outcomes[i]));
}

/// The driver is interrupted exactly if it wants to be, for the queue of the
/// pass, and the pass is over exactly once that is settled.
pub proof fn law_completions_interrupt_on_demand(run: CompletionRun, i: int)
    requires
        run.legal(),
        0 <= i < run.outcomes.len(),
    ensures
        run.at(i + 1) is TriggerInterrupt <==> run.outcomes[i] == CompletionOutcome::KickWanted(
            true,
        ),
        run.at(i + 1) is TriggerInterrupt ==> run.at(i + 1) == (CompletionStep::TriggerInterrupt {
            queue_index: run.queue_index,
        }),
        run.at(i + 1) is Finished <==> run.outcomes[i] == CompletionOutcome::KickWanted(false)
            || run.outcomes[i] is Triggered,
{
    assert(run.at(i).awaits(run.outcomes[i]));
}

/// A pass that is not over takes every report that its step can have, and no
/// report on another step. A pass that is over takes none.
pub proof fn law_which_reports_a_completion_step_takes(
    step: CompletionStep,
    outcome: CompletionOutcome,
)
    ensures
        step is Finished ==> !step.awaits(outcome),
        outcome is Taken || outcome is Empty || outcome is Failed ==> (step.awaits(outcome)
            <==> step is Pop),
        outcome is Completed ==> (step.awaits(outcome) <==> step is Finish),
        outcome is KickWanted ==> (step.awaits(outcome) <==> step is PrepareKick),
        outcome is Triggered ==> (step.awaits(outcome) <==> step is TriggerInterrupt),
        outcome is Performed ==> (step.awaits(outcome) <==> step is AddUsed || step
            is AdvanceUsedRing),
{
}

} // verus!
