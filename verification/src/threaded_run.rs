//! What holds of a worker thread over its whole life, whatever it is asked.

use vstd::prelude::*;

use crate::config::{BucketUpdate, FileEngineType};
use crate::events::{readable, runtime_registrations, EventSource, Registration};
use crate::events::{EVENT_SET_ALL, EVENT_SET_IN};
use crate::threaded::{control_event, saved_engine, ControlMsg, WorkerState};
use crate::threaded::{PROCESS_ASYNC_COMPLETION, PROCESS_QUEUE, PROCESS_RATE_LIMITER};
use crate::worker::{BlockWorker, FlushMode, WorkerEffect};

verus! {

/// The life of a worker thread: the messages that it got, and where it stood
/// before each of them and after the last. Between two messages a running
/// worker serves its queue, so what it holds may change, but not where it
/// stands.
pub struct ThreadRun<T, A> {
    pub states: Seq<WorkerState<T, A>>,
    pub msgs: Seq<ControlMsg<T, A>>,
}

/// Whether two states differ at most in what the worker holds.
pub open spec fn stands_as<T, A>(a: WorkerState<T, A>, b: WorkerState<T, A>) -> bool {
    match a {
        WorkerState::Parked => b is Parked,
        WorkerState::Running(_) => b is Running,
        WorkerState::Paused(_) => b is Paused,
        WorkerState::Finished => b is Finished,
    }
}

impl<T, A> ThreadRun<T, A> {
    /// Whether the thread started without a queue, and each message led to where
    /// the thread stood next.
    pub open spec fn legal(self) -> bool {
        &&& self.states.len() == self.msgs.len() + 1
        &&& self.states[0] is Parked
        &&& forall|i: int|
            0 <= i < self.msgs.len() ==> stands_as(
                (#[trigger] self.states[i]).after(self.msgs[i]).state,
                self.states[i + 1],
            )
    }

    /// The work that message `i` led to.
    pub open spec fn effects(self, i: int) -> Seq<WorkerEffect> {
        self.states[i].after(self.msgs[i]).effects
    }

    /// Whether the events of a queue are watched after the first `n` messages;
    /// none if they were to be watched twice, or not to be watched although they
    /// were not.
    pub open spec fn watched(self, n: int) -> Option<bool>
        decreases n,
    {
        if n <= 0 {
            Some(false)
        } else {
            match self.watched(n - 1) {
                Some(before) => watched_after(before, self.effects(n - 1)),
                None => None,
            }
        }
    }

    proof fn lemma_watched(self, n: int)
        requires
            self.legal(),
            0 <= n <= self.msgs.len(),
        ensures
            self.watched(n) == Some(self.states[n] is Running),
        decreases n,
    {
        if n > 0 {
            self.lemma_watched(n - 1);
            lemma_message_keeps_watch(self.states[n - 1], self.msgs[n - 1]);
        }
    }
}

/// Whether the events of a queue are watched after some work; none if they were
/// to be watched twice, or not to be watched although they were not.
pub open spec fn watched_after(before: bool, effects: Seq<WorkerEffect>) -> Option<bool>
    decreases effects.len(),
{
    if effects.len() == 0 {
        Some(before)
    } else if effects[0] == WorkerEffect::RegisterRuntimeEvents {
        if before {
            None
        } else {
            watched_after(true, effects.skip(1))
        }
    } else if effects[0] == WorkerEffect::UnregisterRuntimeEvents {
        if before {
            watched_after(false, effects.skip(1))
        } else {
            None
        }
    } else {
        watched_after(before, effects.skip(1))
    }
}

/// The answers among some work.
pub open spec fn answers(effects: Seq<WorkerEffect>) -> Seq<WorkerEffect>
    decreases effects.len(),
{
    if effects.len() == 0 {
        seq![]
    } else if is_answer(effects[0]) {
        seq![effects[0]] + answers(effects.skip(1))
    } else {
        answers(effects.skip(1))
    }
}

/// Whether a piece of work sends an answer.
pub open spec fn is_answer(effect: WorkerEffect) -> bool {
    match effect {
        WorkerEffect::UpdateDisk(_, _) => true,
        WorkerEffect::RefuseDiskUpdate => true,
        WorkerEffect::SendSavedState => true,
        WorkerEffect::MarkQueueDirty => true,
        WorkerEffect::SendQueueDirty => true,
        WorkerEffect::SendPaused => true,
        WorkerEffect::SendReset => true,
        _ => false,
    }
}

/// The answers that a message gets.
pub open spec fn expected_answers<T, A>(
    state: WorkerState<T, A>,
    msg: ControlMsg<T, A>,
) -> Seq<WorkerEffect> {
    match msg {
        ControlMsg::UpdateDiskImage(path, read_only) => if state.worker() is Some {
            seq![WorkerEffect::UpdateDisk(path, read_only)]
        } else {
            seq![WorkerEffect::RefuseDiskUpdate]
        },
        ControlMsg::MarkQMemDirty => if state is Paused {
            seq![WorkerEffect::MarkQueueDirty]
        } else {
            seq![WorkerEffect::SendQueueDirty]
        },
        ControlMsg::Pause => if state.worker() is Some {
            seq![WorkerEffect::SendPaused]
        } else {
            seq![]
        },
        ControlMsg::GetSavedState => if state.worker() is Some {
            seq![WorkerEffect::SendSavedState]
        } else {
            seq![]
        },
        ControlMsg::Reset => if state is Finished {
            seq![]
        } else {
            seq![WorkerEffect::SendReset]
        },
        _ => seq![],
    }
}

proof fn lemma_message_keeps_watch<T, A>(state: WorkerState<T, A>, msg: ControlMsg<T, A>)
    ensures
        watched_after(state is Running, state.after(msg).effects) == Some(
            state.after(msg).state is Running,
        ),
{
    reveal_with_fuel(watched_after, 6);
}

/// The events of a queue are watched exactly while the thread serves it. They
/// are never watched twice, and never given up when they are not watched.
pub proof fn law_events_watched_while_running<T, A>(run: ThreadRun<T, A>, n: int)
    requires
        run.legal(),
        0 <= n <= run.msgs.len(),
    ensures
        run.watched(n) == Some(run.states[n] is Running),
{
    run.lemma_watched(n);
}

/// A request to replace the backing file or to mark the queue dirty always gets
/// exactly one answer. A request to pause or for the saved state gets one where
/// the thread holds a queue, a request to reset gets one until the thread is
/// finished, and each of these gets no other answer. Other messages get none.
pub proof fn law_requests_are_answered_once<T, A>(state: WorkerState<T, A>, msg: ControlMsg<T, A>)
    ensures
        answers(state.after(msg).effects) == expected_answers(state, msg),
{
    reveal_with_fuel(answers, 6);
    assert(seq![WorkerEffect::SendPaused] + Seq::<WorkerEffect>::empty() =~= seq![
        WorkerEffect::SendPaused,
    ]);
}

/// A finished thread stays finished, holds no queue, and does nothing but
/// answer.
pub proof fn law_finished_is_final<T, A>(state: WorkerState<T, A>, msg: ControlMsg<T, A>, i: int)
    requires
        state is Finished,
    ensures
        state.after(msg).state is Finished,
        state.after(msg).released is None,
        0 <= i < state.after(msg).effects.len() ==> is_answer(state.after(msg).effects[i]),
{
}

/// A queue that a parked thread takes is the one that it gives back when it is
/// reset, ready to be activated again.
pub proof fn law_reset_undoes_start<T, A>(worker: BlockWorker<T, A>)
    ensures
        WorkerState::<T, A>::Parked.after(ControlMsg::Start(worker)).state.after(
            ControlMsg::Reset,
        ).state is Parked,
        WorkerState::<T, A>::Parked.after(ControlMsg::Start(worker)).state.after(
            ControlMsg::Reset,
        ).released == Some(worker.reset()),
{
}

/// A kick undoes a pause: the thread serves the same queue again.
pub proof fn law_kick_undoes_pause<T, A>(worker: BlockWorker<T, A>)
    ensures
        WorkerState::Running(worker).after(ControlMsg::Pause).state.after(ControlMsg::Kick).state
            == WorkerState::Running(worker),
{
}

/// Pausing twice does what pausing once does: the second time only answers.
pub proof fn law_pause_is_idempotent<T, A>(worker: BlockWorker<T, A>)
    ensures
        WorkerState::Running(worker).after(ControlMsg::Pause).state.after(ControlMsg::Pause).state
            == WorkerState::Running(worker).after(ControlMsg::Pause).state,
        WorkerState::Running(worker).after(ControlMsg::Pause).state.after(ControlMsg::Pause).effects
            == seq![WorkerEffect::SendPaused],
{
}

/// A thread holds a queue from the message that starts it to the one that
/// resets or finishes it: only a start brings one in, and only a reset or a
/// finish lets one go.
pub proof fn law_only_reset_and_finish_release<T, A>(
    state: WorkerState<T, A>,
    msg: ControlMsg<T, A>,
)
    ensures
        state.after(msg).released is Some == (state.worker() is Some && (msg is Reset
            || msg is Finish)),
        state.after(msg).released is Some ==> state.after(msg).released == Some(
            state.worker()->Some_0.reset(),
        ),
        !(msg is Start) && state.after(msg).released is None ==> state.after(msg).state.worker()
            == state.worker(),
{
}

/// Each event that a thread watches for its queue is handed to the handler of
/// what it comes from, under the number that it was watched with.
pub proof fn law_events_reach_their_handlers<T, A>(worker: BlockWorker<T, A>, i: int)
    requires
        0 <= i < runtime_registrations(worker.resources.disk.file_engine, PROCESS_QUEUE).len(),
    ensures
        WorkerState::Running(worker).dispatch(
            runtime_registrations(worker.resources.disk.file_engine, PROCESS_QUEUE)[i].data,
            runtime_registrations(worker.resources.disk.file_engine, PROCESS_QUEUE)[i].event_set,
        ) == Some(
            runtime_registrations(worker.resources.disk.file_engine, PROCESS_QUEUE)[i].source,
        ),
{
    assert(0x1u32 & 0xF000_201Eu32 == 0) by (bit_vector);
}

/// The events of a data path, as a set.
pub open spec fn runtime_set(engine: FileEngineType) -> Set<Registration> {
    runtime_registrations(engine, PROCESS_QUEUE).to_set()
}

/// The events that are watched after some work on a data path of the given
/// engine.
pub open spec fn events_after(
    watched: Set<Registration>,
    effects: Seq<WorkerEffect>,
    engine: FileEngineType,
) -> Set<Registration>
    decreases effects.len(),
{
    if effects.len() == 0 {
        watched
    } else {
        events_after(
            if effects[0] == WorkerEffect::RegisterRuntimeEvents {
                watched.union(runtime_set(engine))
            } else if effects[0] == WorkerEffect::UnregisterRuntimeEvents {
                watched.difference(runtime_set(engine))
            } else {
                watched
            },
            effects.skip(1),
            engine,
        )
    }
}

/// The events that a thread watches where it stands: its messages all the time,
/// and those of its queue while it serves it.
pub open spec fn watched_by<T, A>(state: WorkerState<T, A>) -> Set<Registration> {
    match state {
        WorkerState::Running(worker) => runtime_set(worker.resources.disk.file_engine).insert(
            control_event(),
        ),
        _ => Set::empty().insert(control_event()),
    }
}

/// The engine of the data path that a message is about.
pub open spec fn engine_of<T, A>(state: WorkerState<T, A>, msg: ControlMsg<T, A>) -> FileEngineType {
    match state.worker() {
        Some(worker) => worker.resources.disk.file_engine,
        None => match msg {
            ControlMsg::Start(worker) => worker.resources.disk.file_engine,
            _ => FileEngineType::Sync,
        },
    }
}

proof fn lemma_runtime_set(engine: FileEngineType, event: Registration)
    ensures
        runtime_set(engine).contains(event) == {
            ||| event == readable(EventSource::Queue, PROCESS_QUEUE)
            ||| event == readable(EventSource::RateLimiter, PROCESS_RATE_LIMITER)
            ||| engine == FileEngineType::Async && event == readable(
                EventSource::AsyncCompletion,
                PROCESS_ASYNC_COMPLETION,
            )
        },
{
    let events = runtime_registrations(engine, PROCESS_QUEUE);
    assert(events[0] == readable(EventSource::Queue, PROCESS_QUEUE));
    assert(events[1] == readable(EventSource::RateLimiter, PROCESS_RATE_LIMITER));
    if engine == FileEngineType::Async {
        assert(events[2] == readable(EventSource::AsyncCompletion, PROCESS_ASYNC_COMPLETION));
    }
    assert(runtime_set(engine).contains(event) == events.contains(event));
}

/// To watch the events of a data path touches the queue event and the rate
/// limiter, and the completions where the engine completes later. Each is watched
/// under its number and for reading only. Messages are watched as before.
pub proof fn law_which_events_are_watched(
    watched: Set<Registration>,
    engine: FileEngineType,
    event: Registration,
)
    ensures
        events_after(watched, seq![WorkerEffect::RegisterRuntimeEvents], engine).contains(event)
            == {
            ||| watched.contains(event)
            ||| event == readable(EventSource::Queue, PROCESS_QUEUE)
            ||| event == readable(EventSource::RateLimiter, PROCESS_RATE_LIMITER)
            ||| engine == FileEngineType::Async && event == readable(
                EventSource::AsyncCompletion,
                PROCESS_ASYNC_COMPLETION,
            )
        },
        runtime_set(engine).contains(event) ==> event.event_set == EVENT_SET_IN,
        !runtime_set(engine).contains(control_event()),
{
    reveal_with_fuel(events_after, 2);
    lemma_runtime_set(engine, event);
    lemma_runtime_set(engine, control_event());
}

/// To stop watching the events of a data path undoes to watch them, where none
/// of them was watched before.
pub proof fn law_unregistering_undoes_registering(
    watched: Set<Registration>,
    engine: FileEngineType,
)
    requires
        watched.disjoint(runtime_set(engine)),
    ensures
        events_after(
            watched,
            seq![WorkerEffect::RegisterRuntimeEvents, WorkerEffect::UnregisterRuntimeEvents],
            engine,
        ) == watched,
{
    reveal_with_fuel(events_after, 3);
    assert(watched.union(runtime_set(engine)).difference(runtime_set(engine)) =~= watched);
}

/// Whatever a thread is asked, it then watches exactly the events that belong to
/// where it stands.
pub proof fn law_watched_events_follow_the_state<T, A>(
    state: WorkerState<T, A>,
    msg: ControlMsg<T, A>,
)
    ensures
        events_after(watched_by(state), state.after(msg).effects, engine_of(state, msg))
            == watched_by(state.after(msg).state),
{
    reveal_with_fuel(events_after, 6);
    let engine = engine_of(state, msg);
    let idle = Set::<Registration>::empty().insert(control_event());
    lemma_runtime_set(engine, control_event());
    assert(idle.union(runtime_set(engine)) =~= runtime_set(engine).insert(control_event()));
    assert(runtime_set(engine).insert(control_event()).difference(runtime_set(engine)) =~= idle);
}

/// Whether one effect comes before another in some work.
pub open spec fn comes_before(
    effects: Seq<WorkerEffect>,
    first: WorkerEffect,
    second: WorkerEffect,
) -> bool {
    exists|i: int, j: int|
        0 <= i < j < effects.len() && #[trigger] effects[i] == first && #[trigger] effects[j]
            == second
}

/// Whenever a thread stops serving its queue and keeps it, what was submitted is
/// waited for and flushed before the device is told, and nothing is discarded.
/// Where the engine completes later, what it completed is collected between the
/// two. Before all that, the events of the queue are given up.
pub proof fn law_pausing_settles_all_requests<T, A>(state: WorkerState<T, A>, msg: ControlMsg<T, A>)
    requires
        state is Running,
        state.after(msg).state is Paused,
    ensures
        ({
            let effects = state.after(msg).effects;
            let flush = WorkerEffect::DrainAndFlush { discard: false };
            &&& comes_before(effects, flush, WorkerEffect::SendPaused)
            &&& comes_before(effects, WorkerEffect::UnregisterRuntimeEvents, flush)
            &&& state.worker()->Some_0.resources.disk.file_engine is Async ==> {
                &&& comes_before(effects, flush, WorkerEffect::ProcessCompletions)
                &&& comes_before(
                    effects,
                    WorkerEffect::ProcessCompletions,
                    WorkerEffect::SendPaused,
                )
            }
            &&& !effects.contains(WorkerEffect::Drain { discard: true })
            &&& !effects.contains(WorkerEffect::DrainAndFlush { discard: true })
        }),
{
    let effects = state.after(msg).effects;
    let flush = WorkerEffect::DrainAndFlush { discard: false };
    assert(effects[0] == WorkerEffect::UnregisterRuntimeEvents);
    assert(effects[1] == flush);
    if state.worker()->Some_0.resources.disk.file_engine is Async {
        assert(effects[2] == WorkerEffect::ProcessCompletions);
        assert(effects[3] == WorkerEffect::SendPaused);
        assert(effects.len() == 4);
    } else {
        assert(effects[2] == WorkerEffect::SendPaused);
        assert(effects.len() == 3);
    }
}

/// Where a message leads a thread. It starts to serve a queue only from having
/// none, or from being paused; it is paused only from serving; it has no queue
/// any more once it is reset, and ends once it is told to.
pub proof fn law_where_messages_lead<T, A>(state: WorkerState<T, A>, msg: ControlMsg<T, A>)
    ensures
        ({
            let after = state.after(msg).state;
            &&& msg matches ControlMsg::Start(worker) ==> if state is Parked {
                after == WorkerState::Running(worker)
            } else {
                after == state
            }
            &&& msg is Pause ==> (after is Paused <==> state.worker() is Some)
            &&& msg is Kick ==> (after is Running <==> state.worker() is Some)
            &&& msg is Reset ==> (after is Parked <==> !(state is Finished))
            &&& msg is Finish ==> after is Finished
            &&& msg is UpdateDiskImage || msg is UpdateRateLimiter || msg is GetSavedState || msg
                is MarkQMemDirty ==> after == state
            &&& after is Finished ==> msg is Finish || state is Finished
        }),
{
}

/// A thread that holds a queue and is kicked serves it now, after its events are
/// watched. A thread without a queue does nothing about a kick.
pub proof fn law_kicks_serve_the_queue<T, A>(state: WorkerState<T, A>)
    ensures
        ({
            let effects = state.after(ControlMsg::Kick).effects;
            &&& effects.contains(WorkerEffect::ProcessQueue) <==> state.worker() is Some
            &&& state.worker() is None ==> effects.len() == 0
            &&& state is Paused ==> comes_before(
                effects,
                WorkerEffect::RegisterRuntimeEvents,
                WorkerEffect::ProcessQueue,
            )
        }),
{
    let effects = state.after(ControlMsg::Kick).effects;
    if state is Running {
        assert(effects[0] == WorkerEffect::ProcessQueue);
    } else if state is Paused {
        assert(effects[0] == WorkerEffect::RegisterRuntimeEvents);
        assert(effects[1] == WorkerEffect::ProcessQueue);
    }
}

/// A queue is given back only after what was submitted was waited for and
/// discarded, and after the queue itself was reset. The worker that is let go is
/// the one that the thread held.
pub proof fn law_queues_are_given_back_empty<T, A>(state: WorkerState<T, A>)
    requires
        state.worker() is Some,
    ensures
        ({
            let effects = state.after(ControlMsg::Reset).effects;
            let drain = WorkerEffect::Drain { discard: true };
            &&& comes_before(effects, drain, WorkerEffect::ResetQueue)
            &&& comes_before(effects, WorkerEffect::ResetQueue, WorkerEffect::SendReset)
            &&& state is Running ==> comes_before(
                effects,
                WorkerEffect::UnregisterRuntimeEvents,
                drain,
            )
            &&& state.after(ControlMsg::Reset).released matches Some(worker) && {
                &&& worker.active_state == state.worker()->Some_0.active_state
                &&& worker.resources.io == state.worker()->Some_0.resources.io
                &&& worker.resources.disk == state.worker()->Some_0.resources.disk
                &&& worker.resources.queue_index == state.worker()->Some_0.resources.queue_index
                &&& !worker.resources.is_io_engine_throttled
            }
        }),
{
    let effects = state.after(ControlMsg::Reset).effects;
    let n = if state is Running {
        1int
    } else {
        0int
    };
    if state is Running {
        assert(effects[0] == WorkerEffect::UnregisterRuntimeEvents);
    }
    assert(effects[n] == (WorkerEffect::Drain { discard: true }));
    assert(effects[n + 1] == WorkerEffect::ResetQueue);
    assert(effects[n + 2] == WorkerEffect::SendReset);
}

/// A thread that ends while it holds a queue waits for what was submitted, and
/// flushes exactly if that is asked for. One without a queue has nothing to do.
pub proof fn law_ending_winds_the_queue_up<T, A>(state: WorkerState<T, A>, mode: FlushMode)
    ensures
        ({
            let effects = state.after(ControlMsg::Finish(mode)).effects;
            &&& state.worker() is Some && mode is Drain <==> effects.contains(
                WorkerEffect::Drain { discard: true },
            )
            &&& state.worker() is Some && mode is DrainAndFlush <==> effects.contains(
                WorkerEffect::DrainAndFlush { discard: true },
            )
            &&& state.worker() is None ==> effects.len() == 0
        }),
{
    let effects = state.after(ControlMsg::Finish(mode)).effects;
    if state.worker() is Some {
        let n = effects.len() - 1;
        assert(effects[n] == crate::worker::flush_work(mode));
    }
}

/// The rate limiter is changed exactly if the thread holds a queue, and to what
/// was asked for.
pub proof fn law_limits_reach_the_held_queue<T, A>(
    state: WorkerState<T, A>,
    bytes: BucketUpdate,
    ops: BucketUpdate,
)
    ensures
        ({
            let effects = state.after(ControlMsg::UpdateRateLimiter(bytes, ops)).effects;
            &&& state.worker() is Some ==> effects.len() == 1 && effects[0]
                == WorkerEffect::UpdateBuckets(bytes, ops)
            &&& state.worker() is None ==> effects.len() == 0
        }),
{
}

/// Which events a thread handles: a message always, the events of a queue only
/// while it serves one, and nothing that reports more than that a descriptor can
/// be read. Each number stands for one source.
pub proof fn law_which_events_a_thread_handles<T, A>(
    state: WorkerState<T, A>,
    source: u32,
    event_set: u32,
)
    ensures
        ({
            let handled = state.dispatch(source, event_set);
            let readable = event_set & EVENT_SET_ALL == 0 || event_set & EVENT_SET_ALL
                == EVENT_SET_IN;
            &&& handled == Some(EventSource::Control) <==> readable && source == 3
            &&& handled == Some(EventSource::Queue) <==> readable && source == 0 && state
                is Running
            &&& handled == Some(EventSource::RateLimiter) <==> readable && source == 1 && state
                is Running
            &&& handled == Some(EventSource::AsyncCompletion) <==> readable && source == 2 && state
                is Running
            &&& handled != Some(EventSource::Activate)
        }),
{
    crate::events::law_which_event_sets_are_handled(event_set);
}

/// A thread holds a queue while it serves it and while it is paused.
pub proof fn law_which_threads_hold_a_queue<T, A>(state: WorkerState<T, A>, worker: BlockWorker<T, A>)
    ensures
        state.worker() == Some(worker) <==> state == WorkerState::Running(worker) || state
            == WorkerState::Paused(worker),
{
}

/// The engine that is saved is the engine of the backing file.
pub proof fn law_engines_are_saved_as_they_are(engine: FileEngineType)
    ensures
        saved_engine(engine) is Async <==> engine is Async,
        saved_engine(engine) is Sync <==> engine is Sync,
{
}

/// A thread watches its messages under their own number, for reading only.
pub proof fn law_messages_are_watched()
    ensures
        control_event().source is Control,
        control_event().data == 3,
        control_event().event_set == 1,
{
}

} // verus!
