use pithos::config::{Config, GoogleCloudStorageOptions, IpAddress};
use pithos::service::AvailableService;
use std::path::PathBuf;

fn config(blocked: Vec<IpAddress>) -> Config {
    Config::new(
        PathBuf::from("/var/lib/pithos"),
        AvailableService::LocalStorage,
        GoogleCloudStorageOptions::new(String::from("files")),
        1 << 20,
        blocked,
        axum_client_ip::SecureClientIpSource::ConnectInfo,
    )
}

#[test]
fn the_configuration_gives_back_its_values() {
    let config = config(Vec::new());
    assert_eq!(config.max_upload_size(), 1 << 20);
    assert_eq!(config.local_storage_path(), &PathBuf::from("/var/lib/pithos"));
    assert_eq!(config.chosen_service(), AvailableService::LocalStorage);
    assert_eq!(config.gcs_config().bucket_name(), "files");
    assert!(matches!(config.get_ip_source(), axum_client_ip::SecureClientIpSource::ConnectInfo));
}

#[test]
fn the_bucket_is_named() {
    assert_eq!(GoogleCloudStorageOptions::new(String::from("b")).bucket_name(), "b");
}

#[test]
fn listed_addresses_are_blocked() {
    let config = config(vec![IpAddress::V4(0x7f000001), IpAddress::V6(1)]);
    assert!(config.is_blocked(&IpAddress::V4(0x7f000001)));
    assert!(config.is_blocked(&IpAddress::V6(1)));
    assert!(!config.is_blocked(&IpAddress::V4(0x7f000002)));
    assert!(!config.is_blocked(&IpAddress::V4(1)));
    assert!(!config.is_blocked(&IpAddress::V6(0x7f000001)));
}

#[test]
fn nobody_is_blocked_by_an_empty_list() {
    assert!(!config(Vec::new()).is_blocked(&IpAddress::V4(0)));
}
