//! What the transport and the event loop see of a block device.

use vstd::prelude::*;

use crate::config_space::overwritten;
use crate::device::{ActiveBlock, BlockState, VirtioBlock};
use crate::events::{readable, runtime_registrations, watch_readable};
use crate::events::{EventSource, Registration};
use crate::features::{acked_after, page_of};
use crate::metrics::{count, BlockDeviceMetrics};
use crate::queue::QueuePass;
use crate::virtio::VirtioDeviceType;
use crate::config::FileEngineType;

verus! {

/// Number under which the activation is reported to a device.
pub const PROCESS_ACTIVATE: u32 = 0;

/// Number under which the queue event is reported to a device.
pub const PROCESS_QUEUE: u32 = 1;

/// Number under which the rate limiter is reported to a device.
pub const PROCESS_RATE_LIMITER: u32 = 2;

/// Number under which completions are reported to a device.
pub const PROCESS_ASYNC_COMPLETION: u32 = 3;

/// Changes to the events that are watched for a device.
#[derive(Clone, Debug, PartialEq, Eq)]
pub struct EventChanges {
    /// Events to watch.
    pub add: Vec<Registration>,
    /// Events not to watch any more.
    pub remove: Vec<Registration>,
}

/// What an event leads to.
#[derive(Clone, Copy, Debug, PartialEq, Eq, Structural)]
pub enum DeviceAction {
    /// Nothing.
    Ignore,
    /// Consume the activation event, and change the events that are watched.
    Activate,
    /// Let the device serve its queue itself, for an event of this source.
    Serve(EventSource),
    /// Consume an event of this source, and do nothing about it.
    Discard(EventSource),
}

/// Where the queue events and the interrupt line of a device are.
#[derive(Clone, Copy, Debug, PartialEq, Eq, Structural)]
pub enum DataPathOwner {
    /// With the device, which is not active.
    Device,
    /// With the device, which serves its queue itself.
    InlineWorker,
    /// With the handles of the worker threads.
    Handles,
}

/// The activation event.
pub open spec fn activation() -> Registration {
    readable(EventSource::Activate, PROCESS_ACTIVATE)
}

/// The activation event.
fn activate_registration() -> (registration: Registration)
    ensures
        registration == activation(),
{
    watch_readable(EventSource::Activate, PROCESS_ACTIVATE)
}

impl<T, A> VirtioBlock<T, A> {
    /// What kind of device it is.
    pub fn device_type(&self) -> (device_type: VirtioDeviceType)
        ensures
            device_type == VirtioDeviceType::Block,
    {
        VirtioDeviceType::Block
    }

    /// The features that the device offers.
    pub fn avail_features(&self) -> (features: u64)
        ensures
            features == self.avail_features,
    {
        self.avail_features
    }

    /// The features that the driver took.
    pub fn acked_features(&self) -> (features: u64)
        ensures
            features == self.acked_features,
    {
        self.acked_features
    }

    /// Sets the features that the driver took.
    pub fn set_acked_features(&mut self, acked_features: u64)
        ensures
            *final(self) == (VirtioBlock { acked_features, ..*old(self) }),
            old(self).wf() ==> final(self).wf(),
    {
        self.acked_features = acked_features;
    }

    /// A page of 32 features that the device offers.
    pub fn avail_features_by_page(&self, page: u32) -> (value: u32)
        ensures
            value == page_of(self.avail_features, page),
    {
        crate::features::features_by_page(self.avail_features, page)
    }

    /// Takes a page of 32 features for the driver. What the device does not
    /// offer is not taken.
    pub fn ack_features_by_page(&mut self, page: u32, value: u32)
        ensures
            *final(self) == (VirtioBlock {
                acked_features: acked_after(
                    old(self).acked_features,
                    old(self).avail_features,
                    page,
                    value,
                ),
                ..*old(self)
            }),
            old(self).wf() ==> final(self).wf(),
    {
        let acked_features = crate::features::ack_features(
            self.acked_features,
            self.avail_features,
            page,
            value,
        );
        self.set_acked_features(acked_features);
    }

    /// The identifier of the drive.
    pub fn id(&self) -> (id: &String)
        ensures
            *id == self.id,
    {
        &self.id
    }

    /// The bytes of the configuration space.
    pub fn config_as_bytes(&self) -> (bytes: Vec<u8>)
        ensures
            bytes@ == self.config_space.bytes(),
    {
        self.config_space.as_bytes()
    }

    /// Writes to the configuration space. A write that does not lie within it
    /// changes nothing but the count of failures.
    pub fn write_config(&mut self, offset: u64, data: &[u8], metrics: &mut BlockDeviceMetrics)
        ensures
            *final(self) == (VirtioBlock {
                config_space: final(self).config_space,
                ..*old(self)
            }),
            old(self).wf() ==> final(self).wf(),
            if old(self).config_space.in_bounds(offset, data@.len()) {
                &&& final(self).config_space.bytes() == overwritten(
                    old(self).config_space.bytes(),
                    offset as int,
                    data@,
                )
                &&& *final(metrics) == *old(metrics)
            } else {
                &&& final(self).config_space == old(self).config_space
                &&& *final(metrics) == (BlockDeviceMetrics {
                    cfg_fails: crate::metrics::counted(old(metrics).cfg_fails, 1),
                    ..*old(metrics)
                })
            },
    {
        if !self.config_space.write(offset, data) {
            count(&mut metrics.cfg_fails, 1);
        }
    }

    /// Where the queue events of the device are, and, once it is active, its
    /// interrupt line.
    pub fn data_path_owner(&self) -> (owner: DataPathOwner)
        requires
            !(self.state is Placeholder),
        ensures
            owner == match self.state {
                BlockState::Active(ActiveBlock::Inline(_)) => DataPathOwner::InlineWorker,
                BlockState::Active(ActiveBlock::Threaded(_)) => DataPathOwner::Handles,
                _ => DataPathOwner::Device,
            },
    {
        match &self.state {
            BlockState::Active(ActiveBlock::Inline(_)) => DataPathOwner::InlineWorker,
            BlockState::Active(ActiveBlock::Threaded(_)) => DataPathOwner::Handles,
            _ => DataPathOwner::Device,
        }
    }

    /// Starts to serve the queue, where the device does so itself.
    pub fn process_virtio_queues(&self) -> (pass: Option<QueuePass>)
        ensures
            pass == if self.is_inline() {
                Some(QueuePass::first())
            } else {
                None
            },
    {
        match &self.state {
            BlockState::Active(ActiveBlock::Inline(active)) => Some(
                active.worker.process_virtio_queues(),
            ),
            _ => None,
        }
    }

    /// The events of a data path that the device holds.
    pub fn runtime_events(&self) -> (events: Vec<Registration>)
        requires
            self.wf(),
            self.holds_data_path(),
        ensures
            events@ == runtime_registrations(
                self.data_path()[0].disk.file_engine,
                PROCESS_QUEUE,
            ),
    {
        crate::events::runtime_events(self.file_engine_type(), PROCESS_QUEUE)
    }

    /// The events that an active device watches: those of its queue, where it
    /// serves it itself.
    pub open spec fn served_events(self) -> Seq<Registration> {
        if self.threaded {
            Seq::empty()
        } else {
            runtime_registrations(self.data_path()[0].disk.file_engine, PROCESS_QUEUE)
        }
    }

    /// The events that a device watches from the beginning: those of its queue
    /// where it is active already and serves it itself, and the activation where
    /// it is not active.
    pub fn init_events(&self) -> (events: Vec<Registration>)
        requires
            self.wf(),
        ensures
            events@ == if self.state is Active {
                self.served_events()
            } else {
                seq![activation()]
            },
    {
        if self.is_activated() {
            if self.threaded {
                Vec::new()
            } else {
                self.runtime_events()
            }
        } else {
            let mut events: Vec<Registration> = Vec::new();
            events.push(activate_registration());
            events
        }
    }

    /// How the events that are watched change when an active device learns of
    /// its activation: it stops waiting for that, and waits for its queue where
    /// it serves it itself.
    pub fn process_activate_event(&self) -> (changes: EventChanges)
        requires
            self.wf(),
            self.state is Active,
        ensures
            changes.add@ == self.served_events(),
            changes.remove@ == seq![activation()],
    {
        let add = if self.threaded {
            Vec::new()
        } else {
            self.runtime_events()
        };
        let mut remove: Vec<Registration> = Vec::new();
        remove.push(activate_registration());
        EventChanges { add, remove }
    }

    /// What an event leads to, by the number under which it is reported. An
    /// active device serves its queue unless threads do. A device that is not
    /// active only takes the event away.
    pub open spec fn action(self, source: u32) -> DeviceAction {
        if self.state is Active {
            if source == PROCESS_ACTIVATE {
                DeviceAction::Activate
            } else if !self.is_inline() {
                DeviceAction::Ignore
            } else if source == PROCESS_QUEUE {
                DeviceAction::Serve(EventSource::Queue)
            } else if source == PROCESS_RATE_LIMITER {
                DeviceAction::Serve(EventSource::RateLimiter)
            } else if source == PROCESS_ASYNC_COMPLETION {
                DeviceAction::Serve(EventSource::AsyncCompletion)
            } else {
                DeviceAction::Ignore
            }
        } else if source == PROCESS_QUEUE {
            DeviceAction::Discard(EventSource::Queue)
        } else if source == PROCESS_RATE_LIMITER {
            DeviceAction::Discard(EventSource::RateLimiter)
        } else if source == PROCESS_ASYNC_COMPLETION && self.data_path()[0].disk.file_engine
            == FileEngineType::Async {
            DeviceAction::Discard(EventSource::AsyncCompletion)
        } else {
            DeviceAction::Ignore
        }
    }

    /// Decides what an event leads to. There is nothing to take an event from
    /// once the data path is gone.
    pub fn process_event(&self, source: u32) -> (action: DeviceAction)
        requires
            self.wf(),
            self.state is Placeholder ==> !(PROCESS_QUEUE <= source <= PROCESS_ASYNC_COMPLETION),
        ensures
            action == self.action(source),
    {
        match &self.state {
            BlockState::Active(active) => match source {
                PROCESS_ACTIVATE => DeviceAction::Activate,
                PROCESS_QUEUE | PROCESS_RATE_LIMITER | PROCESS_ASYNC_COMPLETION => match active {
                    ActiveBlock::Inline(_) => if source == PROCESS_QUEUE {
                        DeviceAction::Serve(EventSource::Queue)
                    } else if source == PROCESS_RATE_LIMITER {
                        DeviceAction::Serve(EventSource::RateLimiter)
                    } else {
                        DeviceAction::Serve(EventSource::AsyncCompletion)
                    },
                    ActiveBlock::Threaded(_) => DeviceAction::Ignore,
                },
                _ => DeviceAction::Ignore,
            },
            _ => match source {
                PROCESS_QUEUE => DeviceAction::Discard(EventSource::Queue),
                PROCESS_RATE_LIMITER => DeviceAction::Discard(EventSource::RateLimiter),
                PROCESS_ASYNC_COMPLETION => match self.file_engine_type() {
                    FileEngineType::Async => DeviceAction::Discard(EventSource::AsyncCompletion),
                    FileEngineType::Sync => DeviceAction::Ignore,
                },
                _ => DeviceAction::Ignore,
            },
        }
    }
}

/// Each event that an active device watches is handed to the handler of what it
/// comes from, under the number that it was watched with.
pub proof fn law_events_are_served<T, A>(block: VirtioBlock<T, A>, i: int)
    requires
        block.wf(),
        block.state is Active,
        0 <= i < block.served_events().len(),
    ensures
        block.action(block.served_events()[i].data) == DeviceAction::Serve(
            block.served_events()[i].source,
        ),
{
}

/// A device whose queues are served by threads watches no event of a queue, and
/// does nothing about one.
pub proof fn law_threads_serve_alone<T, A>(block: VirtioBlock<T, A>, source: u32)
    requires
        block.wf(),
        block.is_served_by_workers(),
    ensures
        block.served_events() == Seq::<Registration>::empty(),
        source != PROCESS_ACTIVATE ==> block.action(source) == DeviceAction::Ignore,
{
}

/// An active device that serves its queue itself watches the queue event and the
/// rate limiter whatever its engine is, and the completions exactly if the engine
/// completes later. It watches nothing else, and each for reading only.
pub proof fn law_serving_devices_hear_their_queue<T, A>(
    block: VirtioBlock<T, A>,
    event: Registration,
)
    requires
        block.wf(),
        block.is_inline(),
    ensures
        block.served_events().contains(event) <==> {
            &&& event.event_set == 1
            &&& {
                ||| event.source is Queue && event.data == 1
                ||| event.source is RateLimiter && event.data == 2
                ||| event.source is AsyncCompletion && event.data == 3
                    && block.data_path()[0].disk.file_engine is Async
            }
        },
        block.served_events().no_duplicates(),
{
    let engine = block.data_path()[0].disk.file_engine;
    crate::events::law_events_of_a_data_path(engine, PROCESS_QUEUE, 0);
    crate::events::law_events_of_a_data_path(engine, PROCESS_QUEUE, 1);
    crate::events::law_events_of_a_data_path(engine, PROCESS_QUEUE, 2);
    let events = block.served_events();
    assert(events[0] == readable(EventSource::Queue, 1));
    assert(events[1] == readable(EventSource::RateLimiter, 2));
    if engine is Async {
        assert(events[2] == readable(EventSource::AsyncCompletion, 3));
    }
    if events.contains(event) {
        let i = choose|i: int| 0 <= i < events.len() && events[i] == event;
        assert(i == 0 || i == 1 || i == 2);
    }
}

/// The activation is watched under its own number, for reading only.
pub proof fn law_activation_is_watched()
    ensures
        activation().source is Activate,
        activation().data == 0,
        activation().event_set == 1,
{
}

/// Which events a device handles. An active device takes note of its activation;
/// where it serves its queue itself, it serves each event of the queue under the
/// number of its source. A device that is not active takes the events of its queue
/// away, those of completions only if its engine has them.
pub proof fn law_which_events_a_device_handles<T, A>(block: VirtioBlock<T, A>, source: u32)
    ensures
        block.state is Active ==> {
            &&& block.action(source) is Activate <==> source == 0
            &&& block.action(source) is Serve <==> block.is_inline() && 1 <= source <= 3
            &&& !(block.action(source) is Discard)
        },
        !(block.state is Active) ==> {
            &&& block.action(source) is Discard <==> source == 1 || source == 2 || (source == 3
                && block.data_path()[0].disk.file_engine is Async)
            &&& !(block.action(source) is Activate) && !(block.action(source) is Serve)
        },
        block.action(source) matches DeviceAction::Serve(from) ==> {
            &&& from is Queue <==> source == 1
            &&& from is RateLimiter <==> source == 2
            &&& from is AsyncCompletion <==> source == 3
        },
        block.action(source) matches DeviceAction::Discard(from) ==> {
            &&& from is Queue <==> source == 1
            &&& from is RateLimiter <==> source == 2
            &&& from is AsyncCompletion <==> source == 3
        },
{
}

} // verus!
