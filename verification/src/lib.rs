//! A virtio block device, as a set of verified state machines.
//!
//! The crate holds the decisions of the device: which features it offers, what
//! its configuration space shows, how its backing file is described, how its
//! queue is served, when it runs on a worker thread and how it is saved and
//! restored. It performs no input or output itself. A function either takes
//! what the host reported and says what follows, or returns the work that the
//! host has to do next.

pub mod completion;
pub mod config;
pub mod config_space;
pub mod device;
pub mod device_ops;
pub mod disk;
pub mod error;
pub mod events;
pub mod features;
pub mod handle;
pub mod lifecycle;
pub mod metrics;
pub mod persist;
pub mod queue;
pub mod queue_run;
pub mod resources;
pub mod threaded;
pub mod threaded_run;
pub mod transport;
pub mod virtio;
pub mod worker;
pub mod worker_pool;
