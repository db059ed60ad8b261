//! Numbers of the virtio interface and of this device.

use vstd::prelude::*;

verus! {

/// Feature bit: the device speaks version 1 of virtio.
pub const VIRTIO_F_VERSION_1: u32 = 32;

/// Feature bit: notifications are suppressed by event index.
pub const VIRTIO_RING_F_EVENT_IDX: u32 = 29;

/// Feature bit: the disk is read-only.
pub const VIRTIO_BLK_F_RO: u32 = 5;

/// Feature bit: the device takes flush requests.
pub const VIRTIO_BLK_F_FLUSH: u32 = 9;

/// Feature bit: the device has more than one request queue.
pub const VIRTIO_BLK_F_MQ: u32 = 12;

/// Number of bytes in the disk identifier that the guest can read.
pub const VIRTIO_BLK_ID_BYTES: usize = 20;

/// Size of a sector, in bytes.
pub const SECTOR_SIZE: u32 = 512;

/// Binary logarithm of the sector size.
pub const SECTOR_SHIFT: u8 = 9;

/// Number of descriptors in a request queue.
pub const BLOCK_QUEUE_SIZE: u16 = 256;

/// Largest number of request queues of one device, one per virtual processor.
pub const MAX_SUPPORTED_VCPUS: u8 = 32;

/// The kinds of virtio device that a saved state can name.
#[derive(Clone, Copy, Debug, PartialEq, Eq, Structural)]
pub enum VirtioDeviceType {
    /// A block device.
    Block,
}

} // verus!
