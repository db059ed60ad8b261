//! How a block device is described before it exists.

use vstd::prelude::*;

use crate::disk::{DiskProperties, ImageRequest, OpenAccess};
use crate::error::VirtioBlockError;
use crate::features::{has_bit, offered};
use crate::virtio::{BLOCK_QUEUE_SIZE, VIRTIO_BLK_F_RO};

verus! {

/// Whether the device takes flush requests from the guest.
#[derive(Clone, Copy, Debug, PartialEq, Eq, Structural)]
pub enum CacheType {
    /// Flush requests are not offered.
    Unsafe,
    /// Flush requests are offered, and data is flushed when the device goes.
    Writeback,
}

/// The engine that serves the backing file.
#[derive(Clone, Copy, Debug, PartialEq, Eq, Structural)]
pub enum FileEngineType {
    /// Requests are submitted and complete later.
    Async,
    /// Requests block until they are done.
    Sync,
}

impl Default for FileEngineType {
    fn default() -> (engine: Self)
        ensures
            engine == FileEngineType::Sync,
    {
        FileEngineType::Sync
    }
}

/// The size and the refill of one token bucket of a rate limiter.
#[derive(Clone, Copy, Debug, PartialEq, Eq, Structural)]
pub struct TokenBucketConfig {
    /// Number of tokens that the bucket holds.
    pub size: u64,
    /// Extra tokens that are handed out once.
    pub one_time_burst: Option<u64>,
    /// Milliseconds in which an empty bucket fills.
    pub refill_time: u64,
}

/// The two buckets of a rate limiter.
#[derive(Clone, Copy, Debug, PartialEq, Eq, Structural)]
pub struct RateLimiterConfig {
    /// Limits bytes per second.
    pub bandwidth: Option<TokenBucketConfig>,
    /// Limits operations per second.
    pub ops: Option<TokenBucketConfig>,
}

impl RateLimiterConfig {
    /// A limiter without any bucket limits nothing, and is shown as none.
    pub fn into_option(self) -> (config: Option<RateLimiterConfig>)
        ensures
            config == self.spec_into_option(),
    {
        if self.bandwidth.is_some() || self.ops.is_some() {
            Some(self)
        } else {
            None
        }
    }

    pub open spec fn spec_into_option(self) -> Option<RateLimiterConfig> {
        if self.bandwidth is None && self.ops is None {
            None
        } else {
            Some(self)
        }
    }
}

/// A change to one bucket of a rate limiter.
#[derive(Clone, Copy, Debug, PartialEq, Eq, Structural)]
pub enum BucketUpdate {
    /// The bucket stays as it is.
    Unchanged,
    /// The bucket is taken away.
    Disabled,
    /// The bucket is replaced.
    Update(TokenBucketConfig),
}

/// A drive as the user describes it: either a file served by this device, or a
/// socket of a process that serves it.
#[derive(Clone, Debug, PartialEq, Eq)]
pub struct BlockDeviceConfig {
    /// Unique identifier of the drive.
    pub drive_id: String,
    /// Identifier of the boot partition.
    pub partuuid: Option<String>,
    /// Whether the drive is the root device.
    pub is_root_device: bool,
    /// Whether flush requests are offered.
    pub cache_type: CacheType,
    /// Whether the drive is opened for reading only; no answer means no.
    pub is_read_only: Option<bool>,
    /// Whether the drive has its own worker threads.
    pub threaded: bool,
    /// Path of the backing file.
    pub path_on_host: Option<String>,
    /// Limits of the drive.
    pub rate_limiter: Option<RateLimiterConfig>,
    /// Engine that serves the backing file.
    pub file_engine_type: Option<FileEngineType>,
    /// Path of the socket of the process that serves the drive.
    pub socket: Option<String>,
}

/// Description of a block device that is served from a file.
#[derive(Clone, Debug, PartialEq, Eq)]
pub struct VirtioBlockConfig {
    /// Unique identifier of the drive.
    pub drive_id: String,
    /// Identifier of the boot partition. It is used only for a root device.
    pub partuuid: Option<String>,
    /// Whether the drive is the root device.
    pub is_root_device: bool,
    /// Whether flush requests are offered.
    pub cache_type: CacheType,
    /// Whether the backing file is opened for reading only.
    pub is_read_only: bool,
    /// Whether each queue is served by a worker thread.
    pub threaded: bool,
    /// Number of request queues.
    pub num_queues: u16,
    /// Path of the backing file.
    pub path_on_host: String,
    /// Limits of the drive.
    pub rate_limiter: Option<RateLimiterConfig>,
    /// Engine that serves the backing file.
    pub file_engine_type: FileEngineType,
}

/// What the host makes each queue of a new device of.
#[derive(Clone, Debug, PartialEq, Eq)]
pub struct QueueParts {
    /// The backing file.
    pub image: ImageRequest,
    /// Limits of the queue.
    pub rate_limiter: Option<RateLimiterConfig>,
    /// Largest size of the queue.
    pub max_size: u16,
}

impl VirtioBlockConfig {
    /// What the host makes each queue of a new device of. Each queue has the
    /// limits of the drive to itself.
    pub open spec fn parts(self) -> QueueParts {
        QueueParts {
            image: ImageRequest {
                path: self.path_on_host,
                access: OpenAccess { read: true, write: !self.is_read_only },
                engine: self.file_engine_type,
            },
            rate_limiter: self.rate_limiter,
            max_size: BLOCK_QUEUE_SIZE,
        }
    }

    /// What the host makes each queue of a new device of.
    pub fn queue_parts(&self) -> (parts: QueueParts)
        ensures
            parts == self.parts(),
    {
        QueueParts {
            image: ImageRequest {
                path: self.path_on_host.clone(),
                access: self.image_access(),
                engine: self.file_engine_type,
            },
            rate_limiter: self.rate_limiter,
            max_size: BLOCK_QUEUE_SIZE,
        }
    }

    /// The access with which the backing file is opened for a new device.
    pub fn image_access(&self) -> (access: OpenAccess)
        ensures
            access == (OpenAccess { read: true, write: !self.is_read_only }),
    {
        DiskProperties::open_access(self.is_read_only)
    }

    /// The device that `value` describes, which has one queue, or none where
    /// `value` names no file or a socket.
    pub open spec fn spec_try_from(value: BlockDeviceConfig) -> Result<
        VirtioBlockConfig,
        VirtioBlockError,
    > {
        match (value.path_on_host, value.socket) {
            (Some(path_on_host), None) => Ok(
                VirtioBlockConfig {
                    drive_id: value.drive_id,
                    partuuid: value.partuuid,
                    is_root_device: value.is_root_device,
                    cache_type: value.cache_type,
                    is_read_only: value.is_read_only == Some(true),
                    threaded: value.threaded,
                    num_queues: 1,
                    path_on_host,
                    rate_limiter: value.rate_limiter,
                    file_engine_type: match value.file_engine_type {
                        Some(engine) => engine,
                        None => FileEngineType::Sync,
                    },
                },
            ),
            _ => Err(VirtioBlockError::Config),
        }
    }
}

impl TryFrom<&BlockDeviceConfig> for VirtioBlockConfig {
    type Error = VirtioBlockError;

    /// Succeeds exactly where a file is named and no socket is.
    fn try_from(value: &BlockDeviceConfig) -> (config: Result<Self, Self::Error>) {
        match (&value.path_on_host, &value.socket) {
            (Some(path_on_host), None) => Ok(
                VirtioBlockConfig {
                    drive_id: value.drive_id.clone(),
                    partuuid: value.partuuid.clone(),
                    is_root_device: value.is_root_device,
                    cache_type: value.cache_type,
                    is_read_only: value.is_read_only.unwrap_or(false),
                    threaded: value.threaded,
                    num_queues: 1,
                    path_on_host: path_on_host.clone(),
                    rate_limiter: value.rate_limiter,
                    file_engine_type: value.file_engine_type.unwrap_or_default(),
                },
            ),
            _ => Err(VirtioBlockError::Config),
        }
    }
}

impl vstd::std_specs::convert::TryFromSpecImpl<&BlockDeviceConfig> for VirtioBlockConfig {
    open spec fn obeys_try_from_spec() -> bool {
        true
    }

    open spec fn try_from_spec(value: &BlockDeviceConfig) -> Result<Self, VirtioBlockError> {
        VirtioBlockConfig::spec_try_from(*value)
    }
}

impl From<VirtioBlockConfig> for BlockDeviceConfig {
    fn from(value: VirtioBlockConfig) -> (config: Self) {
        BlockDeviceConfig {
            drive_id: value.drive_id,
            partuuid: value.partuuid,
            is_root_device: value.is_root_device,
            cache_type: value.cache_type,
            is_read_only: Some(value.is_read_only),
            threaded: value.threaded,
            path_on_host: Some(value.path_on_host),
            rate_limiter: value.rate_limiter,
            file_engine_type: Some(value.file_engine_type),
            socket: None,
        }
    }
}

impl vstd::std_specs::convert::FromSpecImpl<VirtioBlockConfig> for BlockDeviceConfig {
    open spec fn obeys_from_spec() -> bool {
        true
    }

    open spec fn from_spec(value: VirtioBlockConfig) -> Self {
        BlockDeviceConfig {
            drive_id: value.drive_id,
            partuuid: value.partuuid,
            is_root_device: value.is_root_device,
            cache_type: value.cache_type,
            is_read_only: Some(value.is_read_only),
            threaded: value.threaded,
            path_on_host: Some(value.path_on_host),
            rate_limiter: value.rate_limiter,
            file_engine_type: Some(value.file_engine_type),
            socket: None,
        }
    }
}

/// Describing a single-queue device as a drive, and reading that drive back,
/// gives the same device.
pub proof fn law_drive_describes_device(config: VirtioBlockConfig)
    requires
        config.num_queues == 1,
    ensures
        VirtioBlockConfig::spec_try_from(
            <BlockDeviceConfig as vstd::std_specs::convert::FromSpec<VirtioBlockConfig>>::from_spec(
                config,
            ),
        ) == Ok::<VirtioBlockConfig, VirtioBlockError>(config),
{
}

/// A drive is served from a file exactly if it names a file and no socket. The
/// device then has the fields of the drive and one queue; it is read-only only if
/// the drive says so, and blocks on requests unless the drive names an engine.
/// Every other drive is refused as a configuration.
pub proof fn law_which_drives_are_served_from_a_file(drive: BlockDeviceConfig)
    ensures
        <VirtioBlockConfig as vstd::std_specs::convert::TryFromSpec<
            &BlockDeviceConfig,
        >>::obeys_try_from_spec(),
        ({
            let result = <VirtioBlockConfig as vstd::std_specs::convert::TryFromSpec<
                &BlockDeviceConfig,
            >>::try_from_spec(&drive);
            &&& result is Ok <==> drive.path_on_host is Some && drive.socket is None
            &&& result matches Err(error) ==> error is Config
            &&& result matches Ok(config) ==> {
                &&& config.drive_id == drive.drive_id
                &&& config.partuuid == drive.partuuid
                &&& config.is_root_device == drive.is_root_device
                &&& config.cache_type == drive.cache_type
                &&& config.is_read_only <==> drive.is_read_only == Some(true)
                &&& config.threaded == drive.threaded
                &&& config.num_queues == 1
                &&& drive.path_on_host == Some(config.path_on_host)
                &&& config.rate_limiter == drive.rate_limiter
                &&& config.file_engine_type is Async <==> drive.file_engine_type == Some(
                    FileEngineType::Async,
                )
            }
        }),
{
}

/// The drive that describes a device names its file and no socket, and leaves
/// nothing of the device to a default.
pub proof fn law_device_is_described_as_a_drive(config: VirtioBlockConfig)
    ensures
        <BlockDeviceConfig as vstd::std_specs::convert::FromSpec<
            VirtioBlockConfig,
        >>::obeys_from_spec(),
        ({
            let drive = <BlockDeviceConfig as vstd::std_specs::convert::FromSpec<
                VirtioBlockConfig,
            >>::from_spec(config);
            &&& drive.path_on_host == Some(config.path_on_host)
            &&& drive.socket is None
            &&& drive.is_read_only == Some(config.is_read_only)
            &&& drive.file_engine_type == Some(config.file_engine_type)
            &&& drive.drive_id == config.drive_id
            &&& drive.partuuid == config.partuuid
            &&& drive.is_root_device == config.is_root_device
            &&& drive.cache_type == config.cache_type
            &&& drive.threaded == config.threaded
            &&& drive.rate_limiter == config.rate_limiter
        }),
{
}

/// A rate limiter is shown exactly if it limits something, and then as it is.
pub proof fn law_limiters_without_a_bucket_are_not_shown(limiter: RateLimiterConfig)
    ensures
        limiter.spec_into_option() is None <==> limiter.bandwidth is None && limiter.ops is None,
        limiter.spec_into_option() matches Some(shown) ==> shown.bandwidth == limiter.bandwidth
            && shown.ops == limiter.ops,
{
}

/// What each queue of a new device is made of follows its configuration: the
/// path, the engine and the limits are those of the configuration. The file is
/// always opened for reading, and for writing exactly if a device of that
/// configuration does not offer to be read-only.
pub proof fn law_new_queues_follow_the_configuration(config: VirtioBlockConfig)
    ensures
        config.parts().image.path == config.path_on_host,
        config.parts().image.engine == config.file_engine_type,
        config.parts().image.access.read,
        config.parts().image.access.write <==> !config.is_read_only,
        config.parts().image.access.write <==> !has_bit(
            offered(config.cache_type, config.is_read_only, config.num_queues > 1),
            VIRTIO_BLK_F_RO,
        ),
        config.parts().rate_limiter == config.rate_limiter,
        config.parts().max_size == 256,
{
    crate::features::law_offered_features(
        config.cache_type,
        config.is_read_only,
        config.num_queues > 1,
        VIRTIO_BLK_F_RO,
    );
}

} // verus!
