//! The backends that move file content themselves: what they store a file
//! under, what they write before its content, and what they learn when they
//! read it back.

use crate::framing::{
    content_length, encode_header, framed_length, header, spec_content_length,
    spec_framed_length,
};
use crate::ident::{hyphenated, is_random_id, FileId};
use vstd::prelude::*;
use vstd::utf8::encode_utf8;

verus! {

/// The number of seconds that the idle backend waits before it answers.
pub const SNAIL_DELAY: u64 = 30;

/// What a backend does to store a new file.
#[derive(Debug, Clone, PartialEq, Eq)]
pub struct WritePlan {
    /// The identifier that the file will be known by.
    pub id: FileId,
    /// The name of the file or object to create: the identifier in writing.
    pub object_name: String,
    /// The bytes to write before the content.
    pub header: Vec<u8>,
    /// The number of bytes that will be written in all, where the length of
    /// the content is known and the sum fits in 64 bits.
    pub total_length: Option<u64>,
}

impl WritePlan {
    /// The plan stores a file called `file_name`, whose content has
    /// `content_length` bytes, under a fresh identifier.
    pub open spec fn stores(&self, file_name: Seq<char>, content_length: Option<u64>) -> bool {
        &&& is_random_id(self.id.value)
        &&& self.object_name@ == hyphenated(self.id.value)
        &&& self.header@ == header(file_name)
        &&& self.total_length == spec_framed_length(content_length, encode_utf8(file_name).len())
    }
}

/// Plans the storing of a file called `file_name`, whose content has
/// `content_length` bytes if that is known.
pub fn plan_write(file_name: &str, content_length: Option<u64>) -> (plan: WritePlan)
    ensures
        plan.stores(file_name@, content_length),
{
    let id = FileId::generate();
    WritePlan {
        id,
        object_name: id.to_string(),
        header: encode_header(file_name),
        total_length: framed_length(content_length, file_name),
    }
}

/// What a backend knows of a stored file once it has read the header.
#[derive(Debug, Clone, PartialEq, Eq)]
pub struct FileHead {
    /// The name of the file.
    pub file_name: String,
    /// The number of content bytes, where the size of the envelope is known.
    /// An unknown length is absent: it is never given as zero.
    pub length: Option<u64>,
    /// The content bytes that were read together with the header. They come
    /// before the rest of the stream.
    pub head: Vec<u8>,
}

/// Puts together what was read of a stored file: its name, the content
/// bytes that came with the header, and the length of the content as it
/// follows from the size `total` of the envelope.
pub fn file_head(file_name: String, head: Vec<u8>, total: Option<u64>) -> (file: FileHead)
    ensures
        file.file_name@ == file_name@,
        file.head@ == head@,
        file.length == spec_content_length(total, encode_utf8(file_name@).len() as u64),
{
    let name_length = file_name.as_str().as_bytes().len() as u64;
    FileHead { file_name, length: content_length(total, name_length), head }
}

/// A backend that keeps each file as one file of a directory.
pub struct LocalFilesystemModel {
    storage_directory: std::path::PathBuf,
}

impl LocalFilesystemModel {
    /// The directory that holds the files.
    pub closed spec fn directory(&self) -> std::path::PathBuf {
        self.storage_directory
    }

    /// A backend that keeps its files in `storage_directory`.
    pub fn with_storage(storage_directory: std::path::PathBuf) -> (model: LocalFilesystemModel)
        ensures
            model.directory() == storage_directory,
    {
        LocalFilesystemModel { storage_directory }
    }

    /// The directory that holds the files.
    pub fn storage_directory(&self) -> (directory: &std::path::PathBuf)
        ensures
            *directory == self.directory(),
    {
        &self.storage_directory
    }

    /// The name of the backend.
    pub fn name(&self) -> (name: &'static str)
        ensures
            name@ == "Local Filesystem"@,
    {
        "Local Filesystem"
    }

    /// Plans the storing of a file called `file_name`. The length of the
    /// content is of no use to this backend.
    pub fn write_file(&self, file_name: &str) -> (plan: WritePlan)
        ensures
            plan.stores(file_name@, None),
    {
        plan_write(file_name, None)
    }

    /// The name of the file that holds the file `file_identifier`, inside
    /// the storage directory.
    pub fn file_name_of(&self, file_identifier: FileId) -> (name: String)
        ensures
            name@ == hyphenated(file_identifier.value),
    {
        file_identifier.to_string()
    }
}

/// A backend that keeps each file as one object of a bucket of Google Cloud
/// Storage.
#[derive(Debug, Clone)]
pub struct GoogleCloudStorageModel {
    bucket: String,
}

impl GoogleCloudStorageModel {
    /// The name of the bucket.
    pub closed spec fn bucket(&self) -> Seq<char> {
        self.bucket@
    }

    /// A backend that keeps its objects in the bucket called `bucket`.
    pub fn new(bucket: String) -> (model: GoogleCloudStorageModel)
        ensures
            model.bucket() == bucket@,
    {
        GoogleCloudStorageModel { bucket }
    }

    /// The name of the bucket.
    pub fn bucket_name(&self) -> (name: &str)
        ensures
            name@ == self.bucket(),
    {
        self.bucket.as_str()
    }

    /// The name of the backend.
    pub fn name(&self) -> (name: &'static str)
        ensures
            name@ == "Google Cloud Storage"@,
    {
        "Google Cloud Storage"
    }

    /// The media type that every object is stored as.
    pub fn content_type() -> (media_type: &'static str)
        ensures
            media_type@ == "application/octet-stream"@,
    {
        "application/octet-stream"
    }

    /// Plans the storing of a file called `file_name`, whose content has
    /// `content_length` bytes if that is known. The store is told the length
    /// of the whole envelope where it is known.
    pub fn write_file(&self, file_name: &str, content_length: Option<u64>) -> (plan: WritePlan)
        ensures
            plan.stores(file_name@, content_length),
    {
        plan_write(file_name, content_length)
    }

    /// The name of the object that holds the file `file_identifier`.
    pub fn object_name_of(&self, file_identifier: FileId) -> (name: String)
        ensures
            name@ == hyphenated(file_identifier.value),
    {
        file_identifier.to_string()
    }
}

/// A backend that stores nothing and answers slowly.
#[derive(Debug, Copy, Clone, PartialEq, Eq, Structural)]
pub struct SnailNoopModel;

impl Default for SnailNoopModel {
    fn default() -> (model: SnailNoopModel)
        ensures
            model == SnailNoopModel,
    {
        SnailNoopModel
    }
}

impl SnailNoopModel {
    /// The name of the backend.
    pub fn name(&self) -> (name: &'static str)
        ensures
            name@ == "Snail Noop"@,
    {
        "Snail Noop"
    }

    /// The answer to every upload, which is to be given after `SNAIL_DELAY`
    /// seconds: a fresh identifier, under which nothing is stored.
    pub fn write_file(&self) -> (id: FileId)
        ensures
            is_random_id(id.value),
    {
        FileId::generate()
    }

    /// The answer to every download, which is to be given after
    /// `SNAIL_DELAY` seconds: a file without name, of unknown length and
    /// without content.
    pub fn read_file(&self, file_identifier: FileId) -> (file: FileHead)
        ensures
            file.file_name@ == Seq::<char>::empty(),
            file.length is None,
            file.head@ == Seq::<u8>::empty(),
    {
        FileHead { file_name: String::new(), length: None, head: Vec::new() }
    }
}

} // verus!
