//! The events that a device and its workers wait for.

use vmm_sys_util::epoll::EventSet;
use vstd::prelude::*;

use crate::config::FileEngineType;

verus! {

/// What an event can come from.
#[derive(Clone, Copy, Debug, PartialEq, Eq, Structural)]
pub enum EventSource {
    /// The device was activated.
    Activate,
    /// The driver put chains into the queue.
    Queue,
    /// The rate limiter has tokens again.
    RateLimiter,
    /// The engine completed requests.
    AsyncCompletion,
    /// The device sent a message to the worker.
    Control,
}

/// An event to watch, and the number under which it is reported.
#[derive(Clone, Copy, Debug, PartialEq, Eq, Structural)]
pub struct Registration {
    /// What the event comes from.
    pub source: EventSource,
    /// The number under which it is reported.
    pub data: u32,
    /// The event set with which it is watched.
    pub event_set: u32,
}

/// The event set of a descriptor that can be read.
pub const EVENT_SET_IN: u32 = 0x1;

/// All the events that an event set can hold.
pub const EVENT_SET_ALL: u32 = 0xF000_201F;

/// Whether an event set reports nothing but that a descriptor can be read.
pub open spec fn reads_only(event_set: u32) -> bool {
    event_set & 0xF000_201E == 0
}

/// `EventSet::contains` of vmm-sys-util, on sets given by their bits: whether
/// all events of `other` are in `set`. Bits that stand for no event are dropped
/// by `EventSet::from_bits_truncate`.
#[verifier::external_body]
fn event_set_contains(set: u32, other: u32) -> (contained: bool)
    ensures
        contained == ((set & EVENT_SET_ALL) & (other & EVENT_SET_ALL) == other & EVENT_SET_ALL),
{
    EventSet::from_bits_truncate(set).contains(EventSet::from_bits_truncate(other))
}

/// Whether an event is one that the device handles: it may only say that a
/// descriptor can be read.
pub fn is_supported(event_set: u32) -> (supported: bool)
    ensures
        supported == reads_only(event_set),
{
    let supported = event_set_contains(EVENT_SET_IN, event_set);
    proof {
        assert(((0x1u32 & 0xF000_201Fu32) & (event_set & 0xF000_201Fu32) == event_set
            & 0xF000_201Fu32) == (event_set & 0xF000_201Eu32 == 0)) by (bit_vector);
    }
    supported
}

/// An event that is watched for nothing but that its descriptor can be read.
pub open spec fn readable(source: EventSource, data: u32) -> Registration {
    Registration { source, data, event_set: EVENT_SET_IN }
}

/// An event that is watched for nothing but that its descriptor can be read.
pub(crate) fn watch_readable(source: EventSource, data: u32) -> (registration: Registration)
    ensures
        registration == readable(source, data),
{
    Registration { source, data, event_set: EVENT_SET_IN }
}

/// The events of a data path, numbered from `first` on. Completions are watched
/// where the engine completes later.
pub open spec fn runtime_registrations(engine: FileEngineType, first: u32) -> Seq<Registration> {
    let always = seq![
        readable(EventSource::Queue, first),
        readable(EventSource::RateLimiter, (first + 1) as u32),
    ];
    match engine {
        FileEngineType::Async => always.push(
            readable(EventSource::AsyncCompletion, (first + 2) as u32),
        ),
        FileEngineType::Sync => always,
    }
}

/// The events of a data path, numbered from `first` on.
pub(crate) fn runtime_events(engine: FileEngineType, first: u32) -> (events: Vec<Registration>)
    requires
        first <= u32::MAX - 2,
    ensures
        events@ == runtime_registrations(engine, first),
{
    let mut events: Vec<Registration> = Vec::new();
    events.push(watch_readable(EventSource::Queue, first));
    events.push(watch_readable(EventSource::RateLimiter, first + 1));
    if let FileEngineType::Async = engine {
        events.push(watch_readable(EventSource::AsyncCompletion, first + 2));
    }
    events
}

/// An event is handled exactly if, of all that an event set can report, it
/// reports nothing or that a descriptor can be read.
pub proof fn law_which_event_sets_are_handled(event_set: u32)
    ensures
        reads_only(event_set) <==> event_set & EVENT_SET_ALL == 0 || event_set & EVENT_SET_ALL
            == EVENT_SET_IN,
        EVENT_SET_IN == 1,
{
    assert((event_set & 0xF000_201E == 0) == (event_set & 0xF000_201F == 0 || event_set
        & 0xF000_201F == 1)) by (bit_vector);
}

/// A data path has the events of its queue and of its rate limiter whatever its
/// engine is, and that of completions exactly if the engine completes later. They
/// are numbered one after the other, and watched for reading only.
pub proof fn law_events_of_a_data_path(engine: FileEngineType, first: u32, i: int)
    requires
        first <= u32::MAX - 2,
    ensures
        runtime_registrations(engine, first).len() == if engine is Async {
            3int
        } else {
            2int
        },
        runtime_registrations(engine, first)[0].source is Queue,
        runtime_registrations(engine, first)[1].source is RateLimiter,
        engine is Async ==> runtime_registrations(engine, first)[2].source is AsyncCompletion,
        0 <= i < runtime_registrations(engine, first).len() ==> {
            &&& runtime_registrations(engine, first)[i].data == first + i
            &&& runtime_registrations(engine, first)[i].event_set == 1
        },
{
}

/// An event that is watched keeps its source and its number, and is watched for
/// reading only.
pub proof fn law_watched_events_keep_their_number(source: EventSource, data: u32)
    ensures
        readable(source, data).source == source,
        readable(source, data).data == data,
        readable(source, data).event_set == 1,
{
}

} // verus!
