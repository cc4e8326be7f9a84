//! The services that hand out URLs for uploading and downloading files.

use crate::decimal::{
    decimal, lemma_decimal_round_trip, parse_decimal, parsed_decimal, to_decimal,
};
use crate::download::{DownloadQuery, TypeHint};
use crate::errors::{check_upload_size, PithosError};
use crate::file_extensions::FileExt;
use crate::ident::{hyphenated, is_random_id, FileId};
use vstd::prelude::*;
use vstd::string::StringExecFns;
use vstd::utf8::encode_utf8;

verus! {

/// The services that can be chosen in the configuration.
#[derive(Debug, Copy, Clone, PartialEq, Eq, Structural)]
pub enum AvailableService {
    LocalStorage,
    GoogleCloudStorage,
}

/// Represents a response to a file upload request.
#[derive(Debug, Clone, PartialEq, Eq)]
pub struct UploadHandle {
    /// The URL to which the file should be uploaded.
    pub url: String,
    /// The identifier of the file, for downloading.
    pub uuid: FileId,
}

/// Represents a response to a file download request.
#[derive(Debug, Clone, PartialEq, Eq)]
pub struct DownloadHandle {
    /// The URL from which the file can be downloaded.
    pub url: String,
}

/// The error of `axum_signed_urls::build`.
#[verifier::external_type_specification]
#[verifier::external_body]
pub struct ExSigningFailure(anyhow::Error);

/// The error of the cloud store's signer.
#[verifier::external_type_specification]
#[verifier::external_body]
pub struct ExSignedUrlError(google_cloud_storage::sign::SignedURLError);

/// The query text that `axum_signed_urls::build` writes for the parameters
/// `query` before it signs: the parameters in the order of their names, each
/// as name, equals sign and value, percent-encoded, with an ampersand between
/// two of them.
pub uninterp spec fn signed_query_text(query: Seq<(Seq<char>, Seq<char>)>) -> Seq<char>;

/// A signature in writing: 64 hexadecimal digits in lower case.
pub open spec fn is_signature(signature: Seq<char>) -> bool {
    &&& signature.len() == 64
    &&& forall|i: int|
        0 <= i < signature.len() ==> ('0' <= #[trigger] signature[i] <= '9') || ('a'
            <= signature[i] <= 'f')
}

/// The URL that signs `path` and the written parameters `query_text` with
/// `signature`: the signature is the last parameter.
pub open spec fn signed_form(path: Seq<char>, query_text: Seq<char>, signature: Seq<char>) -> Seq<
    char,
> {
    if query_text.len() == 0 {
        path + "?signature="@ + signature
    } else {
        path + "?"@ + query_text + "&signature="@ + signature
    }
}

/// `url` is `path` with the parameters `query`, signed.
pub open spec fn is_signed_url(
    url: Seq<char>,
    path: Seq<char>,
    query: Seq<(Seq<char>, Seq<char>)>,
) -> bool {
    exists|signature: Seq<char>|
        is_signature(signature) && url == #[trigger] signed_form(
            path,
            signed_query_text(query),
            signature,
        )
}

/// `url` is `path`, a question mark, and a query.
pub open spec fn leads_to(url: Seq<char>, path: Seq<char>) -> bool {
    &&& url.len() > path.len()
    &&& url.subrange(0, path.len() as int) == path
    &&& url[path.len() as int] == '?'
}

/// A signed URL leads to the path that was signed.
pub proof fn lemma_signed_url_leads_to_path(
    url: Seq<char>,
    path: Seq<char>,
    query: Seq<(Seq<char>, Seq<char>)>,
)
    requires
        is_signed_url(url, path, query),
    ensures
        leads_to(url, path),
{
    reveal_strlit("?signature=");
    reveal_strlit("?");
    reveal_strlit("&signature=");
    let signature = choose|signature: Seq<char>|
        is_signature(signature) && url == #[trigger] signed_form(
            path,
            signed_query_text(query),
            signature,
        );
    assert(url.subrange(0, path.len() as int) =~= path);
}

/// Signs `path` with the parameters of `query` by `axum_signed_urls::build`.
/// The signature is made with a secret that is read from the environment at
/// each call: without it the call fails, and only the call can tell. A URL
/// that comes back is `path`, a question mark, the parameters in writing and
/// the signature, which is the hexadecimal form of a SHA-256 code.
#[verifier::external_body]
fn build_signed_url(path: &str, query: &Vec<(String, String)>) -> (signed: Result<
    String,
    anyhow::Error,
>)
    ensures
        signed matches Ok(url) ==> exists|signature: Seq<char>|
            is_signature(signature) && url@ == #[trigger] signed_form(
                path@,
                signed_query_text(parameter_views(query@)),
                signature,
            ),
{
    axum_signed_urls::build(path, query.iter().map(|(k, v)| (k.as_str(), v.as_str())).collect())
}

/// The description that a failure of `axum_signed_urls::build` gives of
/// itself.
#[verifier::external_body]
fn signing_failure_text(failure: &anyhow::Error) -> (text: String) {
    failure.to_string()
}

/// The description that a failure of the cloud store's signer gives of
/// itself.
#[verifier::external_body]
fn signed_url_error_text(failure: &google_cloud_storage::sign::SignedURLError) -> (text: String) {
    failure.to_string()
}

/// The number of seconds for which a URL of the cloud store stays valid:
/// half an hour.
pub const SIGNED_URL_LIFETIME: u64 = 1800;

/// The path that is signed for the file `id` below `base`.
pub open spec fn spec_signed_path(base: Seq<char>, id: FileId) -> Seq<char> {
    base + "/"@ + hyphenated(id.value)
}

/// The path that is signed for the file `id` below `base`.
pub fn signed_path(base: &str, id: FileId) -> (path: String)
    ensures
        path@ == spec_signed_path(base@, id),
{
    let mut path = String::from_str(base);
    path.append("/");
    path.append(id.to_string().as_str());
    path
}

/// The time at which a URL that is signed at the time `issued` expires, in
/// seconds since the epoch: `SIGNED_URL_LIFETIME` seconds later, or at the
/// end of time if that comes first.
pub open spec fn expiry_of(issued: u64) -> u64 {
    if issued + SIGNED_URL_LIFETIME <= u64::MAX {
        (issued + SIGNED_URL_LIFETIME) as u64
    } else {
        u64::MAX
    }
}

/// The time at which a URL that is signed at the time `issued` expires.
pub fn expiry(issued: u64) -> (expires: u64)
    ensures
        expires == expiry_of(issued),
{
    issued.saturating_add(SIGNED_URL_LIFETIME)
}

/// The query parameters of a URL that expires at the time `expires`: the
/// expiry in decimal, and each hint that was given.
pub open spec fn spec_signed_parameters(
    expires: u64,
    type_hint: Option<TypeHint>,
    ext_hint: Option<FileExt>,
) -> Seq<(Seq<char>, Seq<char>)> {
    let first = match type_hint {
        Some(hint) => seq![("type_hint"@, hint@)],
        None => seq![],
    };
    let second = match ext_hint {
        Some(ext) => seq![("ext_hint"@, ext.0@)],
        None => seq![],
    };
    seq![("expires"@, decimal(expires as nat))] + first + second
}

/// The names and values of a list of parameters.
pub open spec fn parameter_views(parameters: Seq<(String, String)>) -> Seq<(Seq<char>, Seq<char>)> {
    Seq::new(parameters.len(), |i: int| (parameters[i].0@, parameters[i].1@))
}

/// The query parameters that are signed with a path: `expires`, and
/// `type_hint` and `ext_hint` where the hint was given. The signature covers
/// them all, so that none can be changed afterwards.
pub fn signed_parameters(
    expires: u64,
    type_hint: Option<TypeHint>,
    ext_hint: Option<FileExt>,
) -> (parameters: Vec<(String, String)>)
    ensures
        parameter_views(parameters@) == spec_signed_parameters(expires, type_hint, ext_hint),
{
    let mut parameters: Vec<(String, String)> = Vec::new();
    parameters.push((String::from_str("expires"), to_decimal(expires)));
    if let Some(hint) = type_hint {
        parameters.push((String::from_str("type_hint"), String::from_str(hint.as_str())));
    }
    if let Some(ext) = ext_hint {
        parameters.push((String::from_str("ext_hint"), ext.0));
    }
    assert(parameter_views(parameters@) =~= spec_signed_parameters(expires, type_hint, ext_hint));
    parameters
}

/// Whether a request that carries the expiry `expires` is still good at the
/// time `now`: the expiry has to be there, has to be a number, and must not
/// have passed.
pub open spec fn spec_still_valid(expires: Option<Seq<char>>, now: u64) -> bool {
    match expires {
        Some(text) => match parsed_decimal(encode_utf8(text)) {
            Some(end) => now <= end,
            None => false,
        },
        None => false,
    }
}

/// Judges the expiry of a request whose signature has been found good.
/// `expires` is the value of the parameter of that name, `now` the time in
/// seconds since the epoch. A request without expiry, or with one that is no
/// number, is rejected like one that has expired.
pub fn still_valid(expires: Option<&str>, now: u64) -> (valid: bool)
    ensures
        valid == spec_still_valid(
            match expires {
                Some(text) => Some(text@),
                None => None,
            },
            now,
        ),
{
    match expires {
        Some(text) => match parse_decimal(text.as_bytes()) {
            Some(end) => now <= end,
            None => false,
        },
        None => false,
    }
}

/// A URL that was signed at the time `issued` is good until
/// `SIGNED_URL_LIFETIME` seconds have passed, and is rejected from then on.
pub proof fn lemma_signed_url_expires(issued: u64, now: u64)
    ensures
        spec_still_valid(Some(decimal(expiry_of(issued) as nat)), now) <==> now <= expiry_of(
            issued,
        ),
        issued + SIGNED_URL_LIFETIME <= u64::MAX && now > issued + SIGNED_URL_LIFETIME
            ==> !spec_still_valid(Some(decimal(expiry_of(issued) as nat)), now),
{
    lemma_decimal_round_trip(expiry_of(issued));
}

/// A service that signs URLs which lead back to this server.
#[derive(Debug, Clone)]
pub struct LocalStorage {
    upload_path: String,
    download_path: String,
}

impl LocalStorage {
    /// The path below which uploads are taken.
    pub closed spec fn upload_path(&self) -> Seq<char> {
        self.upload_path@
    }

    /// The path below which downloads are served.
    pub closed spec fn download_path(&self) -> Seq<char> {
        self.download_path@
    }

    /// A service that signs URLs below the two given paths.
    pub fn new(upload_path: &str, download_path: &str) -> (service: LocalStorage)
        ensures
            service.upload_path() == upload_path@,
            service.download_path() == download_path@,
    {
        LocalStorage {
            upload_path: String::from_str(upload_path),
            download_path: String::from_str(download_path),
        }
    }

    /// The name of the service.
    pub fn name(&self) -> (name: &'static str)
        ensures
            name@ == "Local Storage"@,
    {
        "Local Storage"
    }

    /// The answer to an upload request for the new file `uuid`, once the
    /// signer has answered `signed`.
    pub fn upload_handle(uuid: FileId, signed: Result<String, String>) -> (handle: Result<
        UploadHandle,
        PithosError,
    >)
        ensures
            match signed {
                Ok(url) => handle matches Ok(h) && h.url@ == url@ && h.uuid == uuid,
                Err(reason) => handle matches Err(PithosError::Access(r)) && r@ == reason@,
            },
    {
        match signed {
            Ok(url) => Ok(UploadHandle { url, uuid }),
            Err(reason) => Err(PithosError::Access(reason)),
        }
    }

    /// The answer to a download request, once the signer has answered
    /// `signed`.
    pub fn download_handle(signed: Result<String, String>) -> (handle: Result<
        DownloadHandle,
        PithosError,
    >)
        ensures
            match signed {
                Ok(url) => handle matches Ok(h) && h.url@ == url@,
                Err(reason) => handle matches Err(PithosError::Access(r)) && r@ == reason@,
            },
    {
        match signed {
            Ok(url) => Ok(DownloadHandle { url }),
            Err(reason) => Err(PithosError::Access(reason)),
        }
    }

    /// Draws the identifier of a new file and signs the URL to upload it to:
    /// the upload path, a slash and the identifier, good for
    /// `SIGNED_URL_LIFETIME` seconds from the time `now`. Whether the signer
    /// succeeds is for the signer to say; its failure is an access failure,
    /// and then no identifier is handed out.
    pub fn request_upload_url(&self, length: u64, now: u64) -> (handle: Result<
        UploadHandle,
        PithosError,
    >)
        ensures
            match handle {
                Ok(h) => {
                    &&& is_random_id(h.uuid.value)
                    &&& is_signed_url(
                        h.url@,
                        spec_signed_path(self.upload_path(), h.uuid),
                        spec_signed_parameters(expiry_of(now), None, None),
                    )
                    &&& leads_to(h.url@, spec_signed_path(self.upload_path(), h.uuid))
                },
                Err(e) => e is Access,
            },
    {
        let uuid = FileId::generate();
        let path = signed_path(self.upload_path.as_str(), uuid);
        let parameters = signed_parameters(expiry(now), None, None);
        let signed = match build_signed_url(path.as_str(), &parameters) {
            Ok(url) => {
                proof {
                    lemma_signed_url_leads_to_path(url@, path@, parameter_views(parameters@));
                }
                Ok(url)
            },
            Err(failure) => Err(signing_failure_text(&failure)),
        };
        LocalStorage::upload_handle(uuid, signed)
    }

    /// Signs the URL to download the file `file_identifier` from: the
    /// download path, a slash and the identifier, with the hints as
    /// parameters, good for `SIGNED_URL_LIFETIME` seconds from the time
    /// `now`. The signer's failure is an access failure.
    pub fn request_download_url(
        &self,
        hint: Option<TypeHint>,
        ext_hint: Option<FileExt>,
        file_identifier: FileId,
        now: u64,
    ) -> (handle: Result<DownloadHandle, PithosError>)
        ensures
            match handle {
                Ok(h) => {
                    &&& is_signed_url(
                        h.url@,
                        spec_signed_path(self.download_path(), file_identifier),
                        spec_signed_parameters(expiry_of(now), hint, ext_hint),
                    )
                    &&& leads_to(h.url@, spec_signed_path(self.download_path(), file_identifier))
                },
                Err(e) => e is Access,
            },
    {
        let path = signed_path(self.download_path.as_str(), file_identifier);
        let parameters = signed_parameters(expiry(now), hint, ext_hint);
        let signed = match build_signed_url(path.as_str(), &parameters) {
            Ok(url) => {
                proof {
                    lemma_signed_url_leads_to_path(url@, path@, parameter_views(parameters@));
                }
                Ok(url)
            },
            Err(failure) => Err(signing_failure_text(&failure)),
        };
        LocalStorage::download_handle(signed)
    }
}

/// The HTTP methods that the cloud store signs URLs for here.
#[derive(Debug, Copy, Clone, PartialEq, Eq, Structural)]
pub enum SigningMethod {
    Get,
    Put,
}

/// What the cloud store is asked to sign.
#[derive(Debug, Clone, PartialEq, Eq)]
pub struct SigningRequest {
    /// The bucket that holds the object.
    pub bucket: String,
    /// The name of the object: the identifier of the file.
    pub object: String,
    /// The method that the URL is good for.
    pub method: SigningMethod,
    /// The headers that the client has to send, each as name, colon, value.
    pub headers: Vec<String>,
    /// The number of seconds for which the URL is valid.
    pub expires: u64,
}

/// The header that binds an upload to the size that was announced.
pub open spec fn content_length_header(length: u64) -> Seq<char> {
    "Content-Length: "@ + decimal(length as nat)
}

/// A service that uses Google Cloud Storage to store files. It says what
/// the cloud store is to sign; the client that asks the store is with the
/// caller.
#[derive(Debug, Clone)]
pub struct GoogleCloudStorage {
    /// The name of the bucket in which files are stored.
    bucket_name: String,
}

impl GoogleCloudStorage {
    /// The name of the bucket in which files are stored.
    pub closed spec fn bucket(&self) -> Seq<char> {
        self.bucket_name@
    }

    /// Creates a new Google Cloud Storage service.
    pub fn with_bucket(bucket_name: String) -> (service: GoogleCloudStorage)
        ensures
            service.bucket() == bucket_name@,
    {
        GoogleCloudStorage { bucket_name }
    }

    /// The name of the service.
    pub fn name(&self) -> (name: &'static str)
        ensures
            name@ == "Google Cloud Storage"@,
    {
        "Google Cloud Storage"
    }

    /// The name of the bucket in which files are stored.
    pub fn bucket_name(&self) -> (name: &str)
        ensures
            name@ == self.bucket(),
    {
        self.bucket_name.as_str()
    }

    /// `request` asks for a URL to upload `length` bytes to the file `uuid`:
    /// a PUT of the object named by the identifier, bound to the announced
    /// length, valid for half an hour.
    pub open spec fn signs_upload(&self, request: SigningRequest, uuid: FileId, length: u64) -> bool {
        &&& request.bucket@ == self.bucket()
        &&& request.object@ == hyphenated(uuid.value)
        &&& request.method == SigningMethod::Put
        &&& request.headers@.len() == 1
        &&& request.headers@[0]@ == content_length_header(length)
        &&& request.expires == SIGNED_URL_LIFETIME
    }

    /// `request` asks for a URL to download the file `file_identifier` from:
    /// a GET of the object named by the identifier, valid for half an hour.
    pub open spec fn signs_download(&self, request: SigningRequest, file_identifier: FileId) -> bool {
        &&& request.bucket@ == self.bucket()
        &&& request.object@ == hyphenated(file_identifier.value)
        &&& request.method == SigningMethod::Get
        &&& request.headers@.len() == 0
        &&& request.expires == SIGNED_URL_LIFETIME
    }

    /// What is to be signed for an upload of `length` bytes to the new file
    /// `uuid`.
    pub fn upload_request(&self, uuid: FileId, length: u64) -> (request: SigningRequest)
        ensures
            self.signs_upload(request, uuid, length),
    {
        let mut header = String::from_str("Content-Length: ");
        header.append(to_decimal(length).as_str());
        let mut headers: Vec<String> = Vec::new();
        headers.push(header);
        SigningRequest {
            bucket: self.bucket_name.clone(),
            object: uuid.to_string(),
            method: SigningMethod::Put,
            headers,
            expires: SIGNED_URL_LIFETIME,
        }
    }

    /// What is to be signed for a download of the file `file_identifier`.
    pub fn download_request(&self, file_identifier: FileId) -> (request: SigningRequest)
        ensures
            self.signs_download(request, file_identifier),
    {
        SigningRequest {
            bucket: self.bucket_name.clone(),
            object: file_identifier.to_string(),
            method: SigningMethod::Get,
            headers: Vec::new(),
            expires: SIGNED_URL_LIFETIME,
        }
    }

    /// The answer to an upload request for the new file `uuid`, once the
    /// cloud store has answered `signed`. A failure to sign is an access
    /// failure.
    pub fn upload_handle(
        uuid: FileId,
        signed: Result<String, google_cloud_storage::sign::SignedURLError>,
    ) -> (handle: Result<UploadHandle, PithosError>)
        ensures
            match signed {
                Ok(url) => handle matches Ok(h) && h.url@ == url@ && h.uuid == uuid,
                Err(_) => handle matches Err(PithosError::Access(_)),
            },
    {
        match signed {
            Ok(url) => Ok(UploadHandle { url, uuid }),
            Err(failure) => Err(PithosError::Access(signed_url_error_text(&failure))),
        }
    }

    /// The answer to a download request, once the cloud store has answered
    /// `signed`. A failure to sign is an access failure.
    pub fn download_handle(
        signed: Result<String, google_cloud_storage::sign::SignedURLError>,
    ) -> (handle: Result<DownloadHandle, PithosError>)
        ensures
            match signed {
                Ok(url) => handle matches Ok(h) && h.url@ == url@,
                Err(_) => handle matches Err(PithosError::Access(_)),
            },
    {
        match signed {
            Ok(url) => Ok(DownloadHandle { url }),
            Err(failure) => Err(PithosError::Access(signed_url_error_text(&failure))),
        }
    }
}

/// The one service that was chosen when the server started.
pub enum Backend {
    /// URLs are signed here and lead back to this server.
    Local(LocalStorage),
    /// URLs are signed by the cloud store and lead to it.
    Cloud(GoogleCloudStorage),
}

/// How far an upload request has come.
pub enum UploadStep {
    /// The answer is ready.
    Ready(UploadHandle),
    /// The cloud store has to sign `request` for the new file `uuid`; its
    /// answer goes to `GoogleCloudStorage::upload_handle`.
    Sign { uuid: FileId, request: SigningRequest },
}

/// How far a download request has come.
pub enum DownloadStep {
    /// The answer is ready.
    Ready(DownloadHandle),
    /// The cloud store has to sign `request`; its answer goes to
    /// `GoogleCloudStorage::download_handle`.
    Sign { request: SigningRequest },
}

/// The single contract that the HTTP layer calls: one backend, and the
/// largest upload that is allowed.
pub struct StorageFacade {
    backend: Backend,
    max_upload_size: u64,
}

impl StorageFacade {
    /// The backend that was chosen.
    pub closed spec fn backend(&self) -> Backend {
        self.backend
    }

    /// The largest upload that is allowed, in bytes.
    pub closed spec fn limit(&self) -> u64 {
        self.max_upload_size
    }

    /// A facade for `backend` that admits uploads of up to
    /// `max_upload_size` bytes.
    pub fn new(backend: Backend, max_upload_size: u64) -> (facade: StorageFacade)
        ensures
            facade.backend() == backend,
            facade.limit() == max_upload_size,
    {
        StorageFacade { backend, max_upload_size }
    }

    /// Which of the services is in use.
    pub fn chosen_service(&self) -> (service: AvailableService)
        ensures
            service == match self.backend() {
                Backend::Local(_) => AvailableService::LocalStorage,
                Backend::Cloud(_) => AvailableService::GoogleCloudStorage,
            },
    {
        match &self.backend {
            Backend::Local(_) => AvailableService::LocalStorage,
            Backend::Cloud(_) => AvailableService::GoogleCloudStorage,
        }
    }

    /// The cloud service, where that is the backend.
    pub fn cloud(&self) -> (service: Option<&GoogleCloudStorage>)
        ensures
            match self.backend() {
                Backend::Cloud(c) => service == Some(&c),
                Backend::Local(_) => service is None,
            },
    {
        match &self.backend {
            Backend::Cloud(c) => Some(c),
            Backend::Local(_) => None,
        }
    }

    /// Handles a request to upload `size` bytes at the time `now`. An upload
    /// that is larger than allowed is refused before the backend is asked for
    /// anything, so that no identifier is drawn and nothing is stored. Any
    /// other upload gets a new identifier: the local service signs its URL at
    /// once, the cloud service is yet to sign what is handed out here.
    pub fn request_upload(&self, size: u64, now: u64) -> (step: Result<UploadStep, PithosError>)
        ensures
            size > self.limit() ==> (step matches Err(PithosError::TooLarge(given, max)) && given
                == size && max == self.limit()),
            size <= self.limit() ==> match self.backend() {
                Backend::Local(service) => match step {
                    Ok(UploadStep::Ready(h)) => is_random_id(h.uuid.value) && is_signed_url(
                        h.url@,
                        spec_signed_path(service.upload_path(), h.uuid),
                        spec_signed_parameters(expiry_of(now), None, None),
                    ),
                    Ok(_) => false,
                    Err(e) => e is Access,
                },
                Backend::Cloud(service) => (step matches Ok(UploadStep::Sign { uuid, request })
                    && is_random_id(uuid.value) && service.signs_upload(request, uuid, size)),
            },
    {
        match check_upload_size(size, self.max_upload_size) {
            Err(refusal) => {
                return Err(refusal);
            },
            Ok(_) => {},
        }
        match &self.backend {
            Backend::Local(service) => match service.request_upload_url(size, now) {
                Ok(handle) => Ok(UploadStep::Ready(handle)),
                Err(error) => Err(error),
            },
            Backend::Cloud(service) => {
                let uuid = FileId::generate();
                let request = service.upload_request(uuid, size);
                Ok(UploadStep::Sign { uuid, request })
            },
        }
    }

    /// Handles a request to download the file `file_identifier` at the time
    /// `now`. The local service signs a URL that carries the hints; the cloud
    /// service is yet to sign what is handed out here, and ignores the hints.
    pub fn request_download(
        &self,
        query: DownloadQuery,
        file_identifier: FileId,
        now: u64,
    ) -> (step: Result<DownloadStep, PithosError>)
        ensures
            match self.backend() {
                Backend::Local(service) => match step {
                    Ok(DownloadStep::Ready(h)) => is_signed_url(
                        h.url@,
                        spec_signed_path(service.download_path(), file_identifier),
                        spec_signed_parameters(expiry_of(now), query.type_hint, query.ext_hint),
                    ),
                    Ok(_) => false,
                    Err(e) => e is Access,
                },
                Backend::Cloud(service) => (step matches Ok(DownloadStep::Sign { request })
                    && service.signs_download(request, file_identifier)),
            },
    {
        match &self.backend {
            Backend::Local(service) => match service.request_download_url(
                query.type_hint,
                query.ext_hint,
                file_identifier,
                now,
            ) {
                Ok(handle) => Ok(DownloadStep::Ready(handle)),
                Err(error) => Err(error),
            },
            Backend::Cloud(service) => Ok(
                DownloadStep::Sign { request: service.download_request(file_identifier) },
            ),
        }
    }
}

} // verus!
