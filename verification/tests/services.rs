use pithos::download::{DownloadQuery, TypeHint};
use pithos::errors::PithosError;
use pithos::file_extensions::FileExt;
use pithos::ident::FileId;
use pithos::service::{
    expiry, signed_parameters, signed_path, still_valid, AvailableService, Backend,
    DownloadHandle, DownloadStep, GoogleCloudStorage, LocalStorage, SigningMethod, SigningRequest,
    StorageFacade, UploadHandle, UploadStep, SIGNED_URL_LIFETIME,
};

const NOW: u64 = 1_700_000_000;

fn id() -> FileId {
    FileId::from_u128(0x67e5504410b1426f9247bb680e5fe0c8)
}

fn local() -> LocalStorage {
    LocalStorage::new("/signed_upload", "/signed_download")
}

fn cloud() -> GoogleCloudStorage {
    GoogleCloudStorage::with_bucket(String::from("files"))
}

#[test]
fn the_signed_path_is_base_slash_identifier() {
    assert_eq!(
        signed_path("/signed_upload", id()),
        "/signed_upload/67e55044-10b1-426f-9247-bb680e5fe0c8"
    );
    assert_eq!(signed_path("", FileId::from_u128(0)), "/00000000-0000-0000-0000-000000000000");
}

#[test]
fn a_url_expires_half_an_hour_after_it_was_signed() {
    assert_eq!(SIGNED_URL_LIFETIME, 1800);
    assert_eq!(expiry(0), 1800);
    assert_eq!(expiry(NOW), 1_700_001_800);
    assert_eq!(expiry(u64::MAX - 1800), u64::MAX);
    assert_eq!(expiry(u64::MAX - 1799), u64::MAX);
    assert_eq!(expiry(u64::MAX), u64::MAX);
}

#[test]
fn expiry_and_hints_become_parameters() {
    assert_eq!(
        signed_parameters(1800, None, None),
        vec![(String::from("expires"), String::from("1800"))]
    );
    assert_eq!(
        signed_parameters(5, Some(TypeHint::parse("image/png").unwrap()), None),
        vec![
            (String::from("expires"), String::from("5")),
            (String::from("type_hint"), String::from("image/png")),
        ]
    );
    assert_eq!(
        signed_parameters(5, None, Some(FileExt::from_str(".png").unwrap())),
        vec![
            (String::from("expires"), String::from("5")),
            (String::from("ext_hint"), String::from(".png")),
        ]
    );
    assert_eq!(
        signed_parameters(
            u64::MAX,
            Some(TypeHint::parse("image/png").unwrap()),
            Some(FileExt::from_str(".png").unwrap())
        ),
        vec![
            (String::from("expires"), String::from("18446744073709551615")),
            (String::from("type_hint"), String::from("image/png")),
            (String::from("ext_hint"), String::from(".png")),
        ]
    );
}

#[test]
fn a_request_is_good_until_its_expiry_has_passed() {
    assert!(still_valid(Some("1700001800"), NOW));
    assert!(still_valid(Some("1700001800"), 1_700_001_800));
    assert!(!still_valid(Some("1700001800"), 1_700_001_801));
    assert!(!still_valid(Some("0"), 1));
    assert!(still_valid(Some("0"), 0));
    assert!(still_valid(Some("18446744073709551615"), u64::MAX));
}

#[test]
fn a_request_without_a_proper_expiry_is_rejected() {
    assert!(!still_valid(None, 0));
    assert!(!still_valid(Some(""), 0));
    assert!(!still_valid(Some("soon"), 0));
    assert!(!still_valid(Some("-1"), 0));
    assert!(!still_valid(Some("18446744073709551616"), 0));
    assert!(!still_valid(Some("1700001800 "), 0));
}

#[test]
fn what_was_signed_is_good_for_its_lifetime() {
    for issued in [0u64, NOW, u64::MAX - 1800] {
        let parameters = signed_parameters(expiry(issued), None, None);
        let expires = parameters[0].1.as_str();
        assert!(still_valid(Some(expires), issued));
        assert!(still_valid(Some(expires), issued + 1800));
        if issued + 1800 < u64::MAX {
            assert!(!still_valid(Some(expires), issued + 1801));
        }
    }
}

#[test]
fn a_signed_answer_becomes_a_handle() {
    assert_eq!(
        LocalStorage::upload_handle(id(), Ok(String::from("/u?signature=ab"))),
        Ok(UploadHandle { url: String::from("/u?signature=ab"), uuid: id() })
    );
    assert_eq!(
        LocalStorage::download_handle(Ok(String::from("/d?signature=ab"))),
        Ok(DownloadHandle { url: String::from("/d?signature=ab") })
    );
}

#[test]
fn a_failure_to_sign_is_an_access_failure() {
    assert_eq!(
        LocalStorage::upload_handle(id(), Err(String::from("no secret"))),
        Err(PithosError::Access(String::from("no secret")))
    );
    assert_eq!(
        LocalStorage::download_handle(Err(String::from("no secret"))),
        Err(PithosError::Access(String::from("no secret")))
    );
    let error = LocalStorage::upload_handle(id(), Err(String::from("no secret"))).unwrap_err();
    assert_eq!(error.status_code(), 500);
}

#[test]
fn the_local_service_has_its_name() {
    assert_eq!(local().name(), "Local Storage");
}

#[test]
fn a_local_upload_url_leads_to_the_new_file() {
    match local().request_upload_url(10, NOW) {
        Ok(handle) => {
            let path = format!("/signed_upload/{}?", handle.uuid.to_string());
            assert!(handle.url.starts_with(&path));
            assert!(handle.url.starts_with(&format!("{path}expires=1700001800&signature=")));
            assert_eq!(handle.url.len(), path.len() + "expires=1700001800&signature=".len() + 64);
            assert_eq!((handle.uuid.value >> 76) & 0xf, 4);
        }
        Err(error) => assert!(matches!(error, PithosError::Access(_))),
    }
}

#[test]
fn a_local_download_url_leads_to_the_file_and_carries_the_hints() {
    let hint = TypeHint::parse("image/png").unwrap();
    let ext = FileExt::from_str(".png").unwrap();
    match local().request_download_url(Some(hint), Some(ext), id(), NOW) {
        Ok(handle) => {
            assert!(handle
                .url
                .starts_with("/signed_download/67e55044-10b1-426f-9247-bb680e5fe0c8?"));
            assert!(handle.url.contains("expires=1700001800"));
            assert!(handle.url.contains("ext_hint=.png"));
            assert!(handle.url.contains("type_hint=image"));
            assert!(handle.url.contains("signature="));
        }
        Err(error) => assert!(matches!(error, PithosError::Access(_))),
    }
}

#[test]
fn the_cloud_service_has_its_name_and_bucket() {
    assert_eq!(cloud().name(), "Google Cloud Storage");
    assert_eq!(cloud().bucket_name(), "files");
}

#[test]
fn a_cloud_upload_is_a_put_bound_to_the_length() {
    assert_eq!(
        cloud().upload_request(id(), 1024),
        SigningRequest {
            bucket: String::from("files"),
            object: String::from("67e55044-10b1-426f-9247-bb680e5fe0c8"),
            method: SigningMethod::Put,
            headers: vec![String::from("Content-Length: 1024")],
            expires: 1800,
        }
    );
}

#[test]
fn a_cloud_download_is_a_get() {
    assert_eq!(
        cloud().download_request(id()),
        SigningRequest {
            bucket: String::from("files"),
            object: String::from("67e55044-10b1-426f-9247-bb680e5fe0c8"),
            method: SigningMethod::Get,
            headers: Vec::new(),
            expires: SIGNED_URL_LIFETIME,
        }
    );
}

#[test]
fn a_cloud_answer_becomes_a_handle() {
    assert_eq!(
        GoogleCloudStorage::upload_handle(id(), Ok(String::from("https://storage/x"))),
        Ok(UploadHandle { url: String::from("https://storage/x"), uuid: id() })
    );
    assert_eq!(
        GoogleCloudStorage::download_handle(Ok(String::from("https://storage/x"))),
        Ok(DownloadHandle { url: String::from("https://storage/x") })
    );
}

#[test]
fn a_cloud_failure_to_sign_is_an_access_failure() {
    let failure = google_cloud_storage::sign::SignedURLError::InvalidOption("no key");
    assert_eq!(
        GoogleCloudStorage::upload_handle(id(), Err(failure)),
        Err(PithosError::Access(String::from("invalid option no key")))
    );
    let failure = google_cloud_storage::sign::SignedURLError::CertError(String::from("bad"));
    assert!(matches!(
        GoogleCloudStorage::download_handle(Err(failure)),
        Err(PithosError::Access(_))
    ));
}

#[test]
fn the_facade_knows_its_backend() {
    let facade = StorageFacade::new(Backend::Local(local()), 10);
    assert_eq!(facade.chosen_service(), AvailableService::LocalStorage);
    assert!(facade.cloud().is_none());
    let facade = StorageFacade::new(Backend::Cloud(cloud()), 10);
    assert_eq!(facade.chosen_service(), AvailableService::GoogleCloudStorage);
    assert_eq!(facade.cloud().unwrap().bucket_name(), "files");
}

#[test]
fn an_upload_over_the_limit_is_refused() {
    for backend in [Backend::Local(local()), Backend::Cloud(cloud())] {
        let facade = StorageFacade::new(backend, 1024);
        match facade.request_upload(1025, NOW) {
            Err(error) => {
                assert_eq!(error, PithosError::TooLarge(1025, 1024));
                assert_eq!(error.status_code(), 413);
                assert!(error.message().contains("1025"));
                assert!(error.message().contains("1024"));
            }
            Ok(_) => panic!("an upload over the limit was admitted"),
        }
    }
}

#[test]
fn a_cloud_upload_at_the_limit_is_handed_out_for_signing() {
    let facade = StorageFacade::new(Backend::Cloud(cloud()), 1024);
    match facade.request_upload(1024, NOW) {
        Ok(UploadStep::Sign { uuid, request }) => {
            assert_eq!(request, cloud().upload_request(uuid, 1024));
            assert_eq!((uuid.value >> 76) & 0xf, 4);
        }
        _ => panic!("the cloud store is to sign"),
    }
}

#[test]
fn a_local_upload_at_the_limit_is_signed_or_fails_for_access() {
    let facade = StorageFacade::new(Backend::Local(local()), 1024);
    match facade.request_upload(1024, NOW) {
        Ok(UploadStep::Ready(handle)) => {
            assert!(handle.url.starts_with(&format!("/signed_upload/{}?", handle.uuid.to_string())))
        }
        Ok(UploadStep::Sign { .. }) => panic!("the local service signs itself"),
        Err(error) => assert!(matches!(error, PithosError::Access(_))),
    }
}

#[test]
fn a_cloud_download_is_handed_out_for_signing() {
    let facade = StorageFacade::new(Backend::Cloud(cloud()), 1024);
    let query = DownloadQuery::parse(Some("image/png"), Some(".png")).unwrap();
    match facade.request_download(query, id(), NOW) {
        Ok(DownloadStep::Sign { request }) => assert_eq!(request, cloud().download_request(id())),
        _ => panic!("the cloud store is to sign"),
    }
}

#[test]
fn a_local_download_is_signed_or_fails_for_access() {
    let facade = StorageFacade::new(Backend::Local(local()), 1024);
    let query = DownloadQuery::parse(None, None).unwrap();
    match facade.request_download(query, id(), NOW) {
        Ok(DownloadStep::Ready(handle)) => assert!(handle
            .url
            .starts_with("/signed_download/67e55044-10b1-426f-9247-bb680e5fe0c8?expires=1700001800&signature=")),
        Ok(DownloadStep::Sign { .. }) => panic!("the local service signs itself"),
        Err(error) => assert!(matches!(error, PithosError::Access(_))),
    }
}

#[test]
fn two_uploads_get_two_identifiers() {
    let facade = StorageFacade::new(Backend::Cloud(cloud()), 1024);
    let first = match facade.request_upload(1, NOW) {
        Ok(UploadStep::Sign { uuid, .. }) => uuid,
        _ => panic!("the cloud store is to sign"),
    };
    let second = match facade.request_upload(1, NOW) {
        Ok(UploadStep::Sign { uuid, .. }) => uuid,
        _ => panic!("the cloud store is to sign"),
    };
    assert_ne!(first, second);
}
