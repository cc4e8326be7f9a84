//! The configuration of the server, as the rest of the library reads it.

use crate::service::AvailableService;
use vstd::prelude::*;

verus! {

/// A path in the file system (`std::path::PathBuf`).
#[verifier::external_type_specification]
#[verifier::external_body]
pub struct ExPathBuf(std::path::PathBuf);

/// The source from which the address of a client is taken
/// (`axum_client_ip::SecureClientIpSource`).
#[verifier::external_type_specification]
#[verifier::external_body]
pub struct ExSecureClientIpSource(axum_client_ip::SecureClientIpSource);

/// The address of a client.
#[derive(Debug, Copy, Clone, PartialEq, Eq, Hash, Structural)]
pub enum IpAddress {
    /// The 32 bits of an IPv4 address, the first octet highest.
    V4(u32),
    /// The 128 bits of an IPv6 address, the first segment highest.
    V6(u128),
}

/// The configuration of the Google Cloud Storage service.
#[derive(Debug, Clone)]
pub struct GoogleCloudStorageOptions {
    /// The name of the bucket to use.
    bucket: String,
}

impl GoogleCloudStorageOptions {
    /// The name of the bucket to use.
    pub closed spec fn bucket(&self) -> Seq<char> {
        self.bucket@
    }

    /// Options that name the bucket `bucket`.
    pub fn new(bucket: String) -> (options: GoogleCloudStorageOptions)
        ensures
            options.bucket() == bucket@,
    {
        GoogleCloudStorageOptions { bucket }
    }

    /// The name of the bucket to use.
    pub fn bucket_name(&self) -> (name: String)
        ensures
            name@ == self.bucket(),
    {
        self.bucket.clone()
    }
}

/// The configuration of the server.
pub struct Config {
    /// The path for files when the server stores them itself.
    local_storage_path: std::path::PathBuf,
    /// The service to use.
    service: AvailableService,
    /// The configuration of the Google Cloud Storage service.
    google_cloud_storage: GoogleCloudStorageOptions,
    /// The maximum size of individual uploads in bytes.
    max_upload_size: u64,
    /// The addresses that are blocked from using the server.
    blocked_ips: Vec<IpAddress>,
    /// The source for obtaining the client's address.
    ip_source: axum_client_ip::SecureClientIpSource,
}

impl Config {
    /// The service to use.
    pub closed spec fn spec_service(&self) -> AvailableService {
        self.service
    }

    /// The maximum size of individual uploads in bytes.
    pub closed spec fn spec_max_upload_size(&self) -> u64 {
        self.max_upload_size
    }

    /// The addresses that are blocked from using the server.
    pub closed spec fn blocked(&self) -> Seq<IpAddress> {
        self.blocked_ips@
    }

    /// The configuration of the Google Cloud Storage service.
    pub closed spec fn spec_gcs_config(&self) -> GoogleCloudStorageOptions {
        self.google_cloud_storage
    }

    /// The path for files when the server stores them itself.
    pub closed spec fn spec_local_storage_path(&self) -> std::path::PathBuf {
        self.local_storage_path
    }

    /// The source for obtaining the client's address.
    pub closed spec fn spec_ip_source(&self) -> axum_client_ip::SecureClientIpSource {
        self.ip_source
    }

    /// A configuration of the given values.
    pub fn new(
        local_storage_path: std::path::PathBuf,
        service: AvailableService,
        google_cloud_storage: GoogleCloudStorageOptions,
        max_upload_size: u64,
        blocked_ips: Vec<IpAddress>,
        ip_source: axum_client_ip::SecureClientIpSource,
    ) -> (config: Config)
        ensures
            config.spec_local_storage_path() == local_storage_path,
            config.spec_service() == service,
            config.spec_gcs_config() == google_cloud_storage,
            config.spec_max_upload_size() == max_upload_size,
            config.blocked() == blocked_ips@,
            config.spec_ip_source() == ip_source,
    {
        Config {
            local_storage_path,
            service,
            google_cloud_storage,
            max_upload_size,
            blocked_ips,
            ip_source,
        }
    }

    /// Returns the maximum upload size in bytes.
    pub fn max_upload_size(&self) -> (size: u64)
        ensures
            size == self.spec_max_upload_size(),
    {
        self.max_upload_size
    }

    /// The path for files when the server stores them itself.
    pub fn local_storage_path(&self) -> (path: &std::path::PathBuf)
        ensures
            *path == self.spec_local_storage_path(),
    {
        &self.local_storage_path
    }

    /// The service to use.
    pub fn chosen_service(&self) -> (service: AvailableService)
        ensures
            service == self.spec_service(),
    {
        self.service
    }

    /// The configuration of the Google Cloud Storage service.
    pub fn gcs_config(&self) -> (options: &GoogleCloudStorageOptions)
        ensures
            *options == self.spec_gcs_config(),
    {
        &self.google_cloud_storage
    }

    /// Returns whether the given IP address is blocked.
    pub fn is_blocked(&self, ip: &IpAddress) -> (blocked: bool)
        ensures
            blocked == self.blocked().contains(*ip),
    {
        let mut i: usize = 0;
        while i < self.blocked_ips.len()
            invariant
                i <= self.blocked_ips@.len(),
                forall|j: int| 0 <= j < i ==> self.blocked_ips@[j] != *ip,
            decreases self.blocked_ips@.len() - i,
        {
            if self.blocked_ips[i] == *ip {
                return true;
            }
            i = i + 1;
        }
        false
    }

    /// Returns the client IP source.
    pub fn get_ip_source(&self) -> (source: &axum_client_ip::SecureClientIpSource)
        ensures
            *source == self.spec_ip_source(),
    {
        &self.ip_source
    }
}

} // verus!
