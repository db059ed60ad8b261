use virtio_block::config::{BlockDeviceConfig, CacheType, FileEngineType, VirtioBlockConfig};
use virtio_block::error::VirtioBlockError;

#[test]
fn test_from_config() {
    let block_config = BlockDeviceConfig {
        drive_id: "".to_string(),
        partuuid: None,
        is_root_device: false,
        cache_type: CacheType::Unsafe,

        is_read_only: Some(true),
        threaded: false,
        path_on_host: Some("path".to_string()),
        rate_limiter: None,
        file_engine_type: Default::default(),

        socket: None,
    };
    VirtioBlockConfig::try_from(&block_config).unwrap();

    let block_config = BlockDeviceConfig {
        drive_id: "".to_string(),
        partuuid: None,
        is_root_device: false,
        cache_type: CacheType::Unsafe,

        is_read_only: None,
        threaded: false,
        path_on_host: None,
        rate_limiter: None,
        file_engine_type: Default::default(),

        socket: Some("sock".to_string()),
    };
    VirtioBlockConfig::try_from(&block_config).unwrap_err();

    let block_config = BlockDeviceConfig {
        drive_id: "".to_string(),
        partuuid: None,
        is_root_device: false,
        cache_type: CacheType::Unsafe,

        is_read_only: Some(true),
        threaded: false,
        path_on_host: Some("path".to_string()),
        rate_limiter: None,
        file_engine_type: Default::default(),

        socket: Some("sock".to_string()),
    };
    VirtioBlockConfig::try_from(&block_config).unwrap_err();
}

#[test]
fn a_drive_describes_its_device() {
    let drive = BlockDeviceConfig {
        drive_id: "vda".to_string(),
        partuuid: Some("0eaa91a0-01".to_string()),
        is_root_device: true,
        cache_type: CacheType::Writeback,
        is_read_only: None,
        threaded: true,
        path_on_host: Some("disk".to_string()),
        rate_limiter: None,
        file_engine_type: None,
        socket: None,
    };
    let config = VirtioBlockConfig::try_from(&drive).unwrap();
    assert_eq!(config.num_queues, 1);
    assert!(!config.is_read_only);
    assert_eq!(config.file_engine_type, FileEngineType::Sync);
    assert_eq!(config.partuuid, drive.partuuid);

    let drive = BlockDeviceConfig::from(config.clone());
    assert_eq!(drive.is_read_only, Some(false));
    assert_eq!(drive.file_engine_type, Some(FileEngineType::Sync));
    assert_eq!(VirtioBlockConfig::try_from(&drive), Ok(config));
}

#[test]
fn a_drive_without_a_file_is_refused() {
    let drive = BlockDeviceConfig {
        drive_id: "vda".to_string(),
        partuuid: None,
        is_root_device: false,
        cache_type: CacheType::Unsafe,
        is_read_only: None,
        threaded: false,
        path_on_host: None,
        rate_limiter: None,
        file_engine_type: None,
        socket: None,
    };
    assert_eq!(
        VirtioBlockConfig::try_from(&drive),
        Err(VirtioBlockError::Config)
    );
}
