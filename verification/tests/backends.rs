use pithos::framing::encode_header;
use pithos::ident::FileId;
use pithos::model::{
    file_head, plan_write, GoogleCloudStorageModel, LocalFilesystemModel, SnailNoopModel,
    SNAIL_DELAY,
};
use std::path::PathBuf;

#[test]
fn a_plan_names_the_file_after_a_fresh_identifier() {
    let plan = plan_write("a.txt", Some(100));
    assert_eq!(plan.object_name, plan.id.to_string());
    assert_eq!((plan.id.value >> 76) & 0xf, 4);
    assert_eq!(plan.header, encode_header("a.txt"));
    assert_eq!(plan.total_length, Some(113));
}

#[test]
fn a_plan_for_content_of_unknown_length_has_no_total() {
    assert_eq!(plan_write("a.txt", None).total_length, None);
    assert_eq!(plan_write("a.txt", Some(u64::MAX)).total_length, None);
}

#[test]
fn what_was_read_of_a_file() {
    let file = file_head(String::from("a.txt"), vec![1, 2], Some(113));
    assert_eq!(file.file_name, "a.txt");
    assert_eq!(file.head, vec![1, 2]);
    assert_eq!(file.length, Some(100));
}

#[test]
fn an_unknown_length_stays_absent() {
    assert_eq!(file_head(String::from("a.txt"), Vec::new(), None).length, None);
    assert_eq!(file_head(String::from("a.txt"), Vec::new(), Some(4)).length, None);
    assert_eq!(file_head(String::new(), Vec::new(), Some(8)).length, Some(0));
}

#[test]
fn the_local_backend_keeps_its_directory() {
    let model = LocalFilesystemModel::with_storage(PathBuf::from("/tmp/storage"));
    assert_eq!(model.storage_directory(), &PathBuf::from("/tmp/storage"));
    assert_eq!(model.name(), "Local Filesystem");
}

#[test]
fn the_local_backend_names_files_after_identifiers() {
    let model = LocalFilesystemModel::with_storage(PathBuf::from("/tmp/storage"));
    assert_eq!(
        model.file_name_of(FileId::from_u128(0x67e5504410b1426f9247bb680e5fe0c8)),
        "67e55044-10b1-426f-9247-bb680e5fe0c8"
    );
    let plan = model.write_file("notes.md");
    assert_eq!(plan.header, encode_header("notes.md"));
    assert_eq!(plan.total_length, None);
    assert_eq!(plan.object_name, model.file_name_of(plan.id));
}

#[test]
fn the_cloud_backend_announces_the_whole_length() {
    let model = GoogleCloudStorageModel::new(String::from("files"));
    assert_eq!(model.bucket_name(), "files");
    assert_eq!(model.name(), "Google Cloud Storage");
    assert_eq!(GoogleCloudStorageModel::content_type(), "application/octet-stream");
    let plan = model.write_file("é", Some(10));
    assert_eq!(plan.total_length, Some(20));
    assert_eq!(plan.object_name, model.object_name_of(plan.id));
}

#[test]
fn the_idle_backend_stores_nothing() {
    let model = SnailNoopModel::default();
    assert_eq!(model.name(), "Snail Noop");
    assert_eq!(SNAIL_DELAY, 30);
    let id = model.write_file();
    let file = model.read_file(id);
    assert_eq!(file.file_name, "");
    assert_eq!(file.length, None);
    assert!(file.head.is_empty());
}
