//! The device's side of a worker thread: how it asks and what it waits for.

use vstd::prelude::*;

use crate::error::{QueueError, VirtioBlockError};
use crate::resources::BlockResources;
use crate::threaded::{ControlMsg, SavedState, WorkerState};
use crate::threaded_run::answers;
use crate::worker::{BlockWorker, WorkerEffect};

verus! {

/// The worker thread of the queue of the given number. The host keeps the
/// channels to the thread.
#[derive(Clone, Copy, Debug, PartialEq, Eq, Structural)]
pub struct WorkerHandle {
    /// Number of the queue.
    pub queue_index: u16,
}

/// What a worker thread answers.
#[derive(Debug)]
pub enum ControlResponse<T, Q, R> {
    /// The number of sectors of the new backing file, or why there is none.
    DiskUpdated(Result<u64, VirtioBlockError>),
    /// The worker is paused.
    Paused,
    /// What the worker knows when it is saved.
    SaveReady(SavedState<Q, R>),
    /// Whether the pages of the queue count as dirty.
    QMemDirty(Result<(), QueueError>),
    /// The queue of the worker, if it had one.
    Reset(Option<BlockResources<T>>),
}

/// What is asked of a worker thread.
#[derive(Clone, Copy, Debug, PartialEq, Eq, Structural)]
pub enum Request {
    /// Serve a queue.
    Start,
    /// Go on, and serve the queue now.
    Kick,
    /// Change the rate limiter.
    UpdateRateLimiter,
    /// End.
    Finish,
    /// Stop serving the queue, and keep it.
    Pause,
    /// Give the state of the queue.
    GetSavedState,
    /// Make the pages of the queue count as dirty.
    MarkQMemDirty,
    /// Give the queue back.
    Reset,
    /// Replace the backing file.
    UpdateDiskImage,
}

/// What the host does next about a request.
#[derive(Clone, Copy, Debug, PartialEq, Eq, Structural)]
pub enum RequestStep {
    /// Wake the thread.
    Notify,
    /// Wait for an answer.
    Receive,
    /// Wait for the thread to end.
    Join,
    /// Nothing: the request is over.
    Over,
}

/// What an answer means for who waits for it.
#[derive(Debug)]
pub enum Reply<V> {
    /// It answers another request. Wait for the next.
    Ignored,
    /// The wait is over.
    Done(V),
}

impl Request {
    /// Whether the request is given up when the thread cannot be reached.
    pub open spec fn gives_up(self) -> bool {
        self is Reset || self is UpdateDiskImage
    }

    /// Whether the request is answered.
    pub open spec fn is_answered(self) -> bool {
        match self {
            Request::Pause => true,
            Request::GetSavedState => true,
            Request::MarkQMemDirty => true,
            Request::Reset => true,
            Request::UpdateDiskImage => true,
            _ => false,
        }
    }

    /// Whether `response` answers this request.
    pub open spec fn is_answered_by<T, Q, R>(self, response: ControlResponse<T, Q, R>) -> bool {
        match self {
            Request::Pause => response is Paused,
            Request::GetSavedState => response is SaveReady,
            Request::MarkQMemDirty => response is QMemDirty,
            Request::Reset => response is Reset,
            Request::UpdateDiskImage => response is DiskUpdated,
            _ => false,
        }
    }

    /// The request that a message carries.
    pub fn of<T, A>(msg: &ControlMsg<T, A>) -> (request: Request)
        ensures
            request == request_of(*msg),
    {
        match msg {
            ControlMsg::Start(_) => Request::Start,
            ControlMsg::UpdateDiskImage(_, _) => Request::UpdateDiskImage,
            ControlMsg::UpdateRateLimiter(_, _) => Request::UpdateRateLimiter,
            ControlMsg::Kick => Request::Kick,
            ControlMsg::Pause => Request::Pause,
            ControlMsg::GetSavedState => Request::GetSavedState,
            ControlMsg::MarkQMemDirty => Request::MarkQMemDirty,
            ControlMsg::Reset => Request::Reset,
            ControlMsg::Finish(_) => Request::Finish,
        }
    }

    /// Decides how it goes on once the message was sent, or could not be. The
    /// thread is woken even if the message could not be sent, unless the request
    /// is given up.
    pub fn after_send(self, sent: bool) -> (step: RequestStep)
        ensures
            step == if !sent && self.gives_up() {
                RequestStep::Over
            } else {
                RequestStep::Notify
            },
    {
        if sent {
            RequestStep::Notify
        } else {
            match self {
                Request::Reset => RequestStep::Over,
                Request::UpdateDiskImage => RequestStep::Over,
                _ => RequestStep::Notify,
            }
        }
    }

    /// Decides how it goes on once the thread was woken, or could not be.
    pub fn after_notify(self, notified: bool) -> (step: RequestStep)
        ensures
            step == if !notified && self.gives_up() {
                RequestStep::Over
            } else if self.is_answered() {
                RequestStep::Receive
            } else if self is Finish {
                RequestStep::Join
            } else {
                RequestStep::Over
            },
    {
        match self {
            Request::Pause => RequestStep::Receive,
            Request::GetSavedState => RequestStep::Receive,
            Request::MarkQMemDirty => RequestStep::Receive,
            Request::Reset | Request::UpdateDiskImage => if notified {
                RequestStep::Receive
            } else {
                RequestStep::Over
            },
            Request::Finish => RequestStep::Join,
            _ => RequestStep::Over,
        }
    }
}

/// A text, and another one behind it.
fn join_text(first: &str, second: &str) -> (text: String)
    ensures
        text@ == first@ + second@,
{
    let mut text = String::new();
    text.append(first);
    text.append(second);
    text
}

impl WorkerHandle {
    /// Looks at what arrived while the device waits for the worker to be paused:
    /// an answer, or nothing because the thread is gone. The wait ends only with
    /// the answer.
    pub fn pause<T, Q, R>(arrived: Option<ControlResponse<T, Q, R>>) -> (reply: Reply<()>)
        ensures
            reply == match arrived {
                Some(ControlResponse::Paused) => Reply::Done(()),
                _ => Reply::Ignored,
            },
    {
        match arrived {
            Some(ControlResponse::Paused) => Reply::Done(()),
            _ => Reply::Ignored,
        }
    }

    /// Looks at what arrived while the device waits for the saved state. The
    /// wait ends only with the answer.
    pub fn get_saved_state<T, Q, R>(arrived: Option<ControlResponse<T, Q, R>>) -> (reply: Reply<
        SavedState<Q, R>,
    >)
        ensures
            reply == match arrived {
                Some(ControlResponse::SaveReady(state)) => Reply::Done(state),
                _ => Reply::Ignored,
            },
    {
        match arrived {
            Some(ControlResponse::SaveReady(state)) => Reply::Done(state),
            _ => Reply::Ignored,
        }
    }

    /// Looks at what arrived while the device waits for the queue to be marked
    /// dirty. The wait ends only with the answer.
    pub fn mark_queue_memory_dirty<T, Q, R>(arrived: Option<ControlResponse<T, Q, R>>) -> (reply:
        Reply<Result<(), QueueError>>)
        ensures
            reply == match arrived {
                Some(ControlResponse::QMemDirty(result)) => Reply::Done(result),
                _ => Reply::Ignored,
            },
    {
        match arrived {
            Some(ControlResponse::QMemDirty(result)) => Reply::Done(result),
            _ => Reply::Ignored,
        }
    }

    /// Looks at what arrived while the device waits for the queue. A thread that
    /// is gone has no queue to give back.
    pub fn reset<T, Q, R>(arrived: Option<ControlResponse<T, Q, R>>) -> (reply: Reply<
        Option<BlockResources<T>>,
    >)
        ensures
            reply == match arrived {
                Some(ControlResponse::Reset(resources)) => Reply::Done(resources),
                Some(_) => Reply::Ignored,
                None => Reply::Done(None),
            },
    {
        match arrived {
            Some(ControlResponse::Reset(resources)) => Reply::Done(resources),
            Some(_) => Reply::Ignored,
            None => Reply::Done(None),
        }
    }

    /// Looks at what arrived while the device waits for another backing file: an
    /// answer, or why there is none.
    pub fn update_disk_image<T, Q, R>(arrived: Result<ControlResponse<T, Q, R>, &str>) -> (reply:
        Reply<Result<u64, VirtioBlockError>>)
        ensures
            match arrived {
                Ok(ControlResponse::DiskUpdated(result)) => reply == Reply::Done(result),
                Ok(_) => reply is Ignored,
                Err(reason) => {
                    &&& reply is Done
                    &&& reply->Done_0 is Err
                    &&& worker_control_text(
                        reply->Done_0->Err_0,
                        "failed to receive disk update response: "@ + reason@,
                    )
                },
            },
    {
        match arrived {
            Ok(ControlResponse::DiskUpdated(result)) => Reply::Done(result),
            Ok(_) => Reply::Ignored,
            Err(reason) => Reply::Done(
                Err(
                    VirtioBlockError::WorkerControl(
                        join_text("failed to receive disk update response: ", reason),
                    ),
                ),
            ),
        }
    }

    /// The error of a disk update that could not be sent to the thread.
    pub fn disk_update_not_sent(reason: &str) -> (error: VirtioBlockError)
        ensures
            worker_control_text(error, "failed to send disk update request: "@ + reason@),
    {
        VirtioBlockError::WorkerControl(join_text("failed to send disk update request: ", reason))
    }

    /// The error of a disk update for which the thread could not be woken.
    pub fn disk_update_not_notified(reason: &str) -> (error: VirtioBlockError)
        ensures
            worker_control_text(
                error,
                "failed to notify block worker for disk update: "@ + reason@,
            ),
    {
        VirtioBlockError::WorkerControl(
            join_text("failed to notify block worker for disk update: ", reason),
        )
    }
}

/// Whether an error is one of the worker with the given text.
pub open spec fn worker_control_text(error: VirtioBlockError, text: Seq<char>) -> bool {
    error matches VirtioBlockError::WorkerControl(message) && message@ == text
}

/// The request that a message carries.
pub open spec fn request_of<T, A>(msg: ControlMsg<T, A>) -> Request {
    match msg {
        ControlMsg::Start(_) => Request::Start,
        ControlMsg::UpdateDiskImage(_, _) => Request::UpdateDiskImage,
        ControlMsg::UpdateRateLimiter(_, _) => Request::UpdateRateLimiter,
        ControlMsg::Kick => Request::Kick,
        ControlMsg::Pause => Request::Pause,
        ControlMsg::GetSavedState => Request::GetSavedState,
        ControlMsg::MarkQMemDirty => Request::MarkQMemDirty,
        ControlMsg::Reset => Request::Reset,
        ControlMsg::Finish(_) => Request::Finish,
    }
}

/// Whether `response` is what the host sends for a piece of work.
pub open spec fn carries<T, Q, R>(
    effect: WorkerEffect,
    response: ControlResponse<T, Q, R>,
) -> bool {
    match effect {
        WorkerEffect::UpdateDisk(_, _) => response is DiskUpdated,
        WorkerEffect::RefuseDiskUpdate => response is DiskUpdated,
        WorkerEffect::SendSavedState => response is SaveReady,
        WorkerEffect::MarkQueueDirty => response is QMemDirty,
        WorkerEffect::SendQueueDirty => response is QMemDirty,
        WorkerEffect::SendPaused => response is Paused,
        WorkerEffect::SendReset => response is Reset,
        _ => false,
    }
}

/// What a thread sends for a message is what who sent the message waits for, and
/// who sent another message passes it over.
pub proof fn law_answers_fit_their_requests<T, A, Q, R>(
    state: WorkerState<T, A>,
    msg: ControlMsg<T, A>,
    i: int,
    response: ControlResponse<T, Q, R>,
    other: Request,
)
    requires
        0 <= i < state.after(msg).effects.len(),
        carries(state.after(msg).effects[i], response),
    ensures
        request_of(msg).is_answered_by(response),
        other.is_answered_by(response) ==> other == request_of(msg),
{
}

/// A request waits for an answer exactly if a thread that serves a queue sends
/// one for it, and no thread answers a request that does not wait.
pub proof fn law_who_waits_is_answered<T, A>(
    state: WorkerState<T, A>,
    worker: BlockWorker<T, A>,
    msg: ControlMsg<T, A>,
)
    ensures
        request_of(msg).is_answered() <==> answers(WorkerState::Running(worker).after(msg).effects)
            != Seq::<WorkerEffect>::empty(),
        answers(state.after(msg).effects) != Seq::<WorkerEffect>::empty() ==> request_of(
            msg,
        ).is_answered(),
{
    crate::threaded_run::law_requests_are_answered_once(WorkerState::Running(worker), msg);
    crate::threaded_run::law_requests_are_answered_once(state, msg);
    assert(answers(WorkerState::Running(worker).after(msg).effects).len()
        == crate::threaded_run::expected_answers(WorkerState::Running(worker), msg).len());
    assert(answers(state.after(msg).effects).len() == crate::threaded_run::expected_answers(
        state,
        msg,
    ).len());
}

/// Only a request to reset or for another backing file is given up when the
/// thread cannot be reached: both can fail. Each request that is answered is
/// answered by one kind of response, and no response answers two requests.
pub proof fn law_which_requests_are_given_up<T, Q, R>(
    request: Request,
    other: Request,
    response: ControlResponse<T, Q, R>,
)
    ensures
        request.gives_up() <==> request == Request::Reset || request == Request::UpdateDiskImage,
        request.is_answered_by(response) ==> request.is_answered(),
        request.is_answered_by(response) && other.is_answered_by(response) ==> request == other,
        response is Paused <==> Request::Pause.is_answered_by(response),
        response is SaveReady <==> Request::GetSavedState.is_answered_by(response),
        response is QMemDirty <==> Request::MarkQMemDirty.is_answered_by(response),
        response is Reset <==> Request::Reset.is_answered_by(response),
        response is DiskUpdated <==> Request::UpdateDiskImage.is_answered_by(response),
{
}

/// A message carries the request of its name.
pub proof fn law_messages_carry_their_request<T, A>(msg: ControlMsg<T, A>)
    ensures
        msg is Start <==> request_of(msg) is Start,
        msg is UpdateDiskImage <==> request_of(msg) is UpdateDiskImage,
        msg is UpdateRateLimiter <==> request_of(msg) is UpdateRateLimiter,
        msg is Kick <==> request_of(msg) is Kick,
        msg is Pause <==> request_of(msg) is Pause,
        msg is GetSavedState <==> request_of(msg) is GetSavedState,
        msg is MarkQMemDirty <==> request_of(msg) is MarkQMemDirty,
        msg is Reset <==> request_of(msg) is Reset,
        msg is Finish <==> request_of(msg) is Finish,
{
}

/// An error of the worker shows its text, and nothing else does.
pub proof fn law_worker_errors_show_their_text(error: VirtioBlockError, text: Seq<char>)
    ensures
        worker_control_text(error, text) <==> error is WorkerControl && error->WorkerControl_0@
            == text,
{
}

} // verus!
