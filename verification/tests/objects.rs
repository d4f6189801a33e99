use rws::headers::{HeaderEntry, Headers};
use rws::objects::{
    bucket_directory, compute_etag, conditional_read, failure_error, object_key, split_object_path,
    to_hex_lower, upload_field, ObjectMetadata, ReadOutcome, StorageFailure, UploadField,
};

fn headers(entries: &[(&str, &str)]) -> Headers {
    Headers {
        entries: entries
            .iter()
            .map(|(n, v)| HeaderEntry { name: n.to_string(), value: Some(v.to_string()) })
            .collect(),
    }
}

#[test]
fn object_paths_split_at_the_last_slash() {
    assert_eq!(split_object_path("a/b/c.txt"), ("a/b".to_string(), "c.txt".to_string()));
    assert_eq!(split_object_path("c.txt"), (String::new(), "c.txt".to_string()));
    assert_eq!(split_object_path("a/"), ("a".to_string(), String::new()));
    assert_eq!(split_object_path(""), (String::new(), String::new()));
    // The same parts as splitting at every slash, popping the name and joining the rest.
    for p in ["a/b/c.txt", "c.txt", "a/", "", "/x", "a//b"] {
        let mut parts: Vec<&str> = p.split('/').collect();
        let name = parts.pop().unwrap();
        assert_eq!(split_object_path(p), (parts.join("/"), name.to_string()), "{}", p);
    }
}

#[test]
fn object_keys_and_directories() {
    assert_eq!(object_key("photos", "2024/a.png"), "photos/2024/a.png");
    assert_eq!(bucket_directory("photos"), "/storage/photos");
}

#[test]
fn entity_tags_are_md5_hex() {
    assert_eq!(compute_etag(b""), "d41d8cd98f00b204e9800998ecf8427e");
    assert_eq!(compute_etag(b"hello"), "5d41402abc4b2a76b9719d911017c592");
    assert_eq!(to_hex_lower(&[0x00, 0x0f, 0xab, 0xff]), "000fabff");
    assert_eq!(to_hex_lower(&[]), "");
}

#[test]
fn upload_form_fields() {
    assert_eq!(upload_field("content-disposition"), UploadField::ContentDisposition);
    assert_eq!(upload_field("content-type"), UploadField::ContentType);
    assert_eq!(upload_field("encrypted"), UploadField::Encrypted);
    assert_eq!(upload_field("file"), UploadField::File);
    assert_eq!(upload_field("File"), UploadField::Other);
}

#[test]
fn upload_metadata() {
    let mut m = ObjectMetadata::new();
    assert_eq!(m.content_disposition, "inline");
    assert_eq!(m.content_type, "text/plain");
    assert_eq!(m.content_length, 0);
    assert_eq!(m.etag, "");
    assert!(!m.encrypted);
    m.set_text(UploadField::ContentType, "image/png".to_string());
    m.set_text(UploadField::ContentDisposition, "attachment".to_string());
    m.set_text(UploadField::Encrypted, "true".to_string());
    m.set_text(UploadField::Other, "ignored".to_string());
    assert_eq!(m.content_type, "image/png");
    assert_eq!(m.content_disposition, "attachment");
    assert!(m.encrypted);
    m.set_text(UploadField::Encrypted, "yes".to_string());
    assert!(!m.encrypted);
    m.set_file(b"hello");
    assert_eq!(m.content_length, 5);
    assert_eq!(m.etag, "5d41402abc4b2a76b9719d911017c592");
    assert_eq!(m.content_type, "image/png");
}

#[test]
fn conditional_reads() {
    let etag = "abc".to_string();
    assert_eq!(conditional_read(&headers(&[]), etag.clone(), 5).ok(), Some(ReadOutcome::Content));
    assert_eq!(
        conditional_read(&headers(&[("if-match", "zzz")]), etag.clone(), 5).ok(),
        Some(ReadOutcome::MatchFailed)
    );
    assert_eq!(
        conditional_read(&headers(&[("if-modified-since", "4")]), etag.clone(), 5).ok(),
        Some(ReadOutcome::SinceFailed)
    );
    assert_eq!(
        conditional_read(&headers(&[("if-match", "abc"), ("if-modified-since", "6")]), etag.clone(), 5)
            .ok(),
        Some(ReadOutcome::Content)
    );
    // A failed entity-tag condition is reported before a failed time condition.
    assert_eq!(
        conditional_read(&headers(&[("if-none-match", "abc"), ("if-modified-since", "4")]), etag.clone(), 5)
            .ok(),
        Some(ReadOutcome::MatchFailed)
    );
    // A malformed timestamp is an internal error, even when the tag fails.
    let e = conditional_read(&headers(&[("if-match", "zzz"), ("if-modified-since", "x")]), etag, 5)
        .unwrap_err();
    assert_eq!(e.status, 500);
    assert_eq!(e.message, "Could'nt parse input timestamp");
    assert_eq!(ReadOutcome::Content.message(), None);
    assert_eq!(
        ReadOutcome::MatchFailed.message(),
        Some("Content didn't match 'match' headers restrictions")
    );
    assert_eq!(
        ReadOutcome::SinceFailed.message(),
        Some("Content didn't match 'since' headers restrictions")
    );
}

#[test]
fn storage_failures() {
    let e = failure_error(StorageFailure::UploadBucketMissing);
    assert_eq!((e.status, e.message.as_str()), (400, "Couln't find bucket"));
    let e = failure_error(StorageFailure::ObjectMissing);
    assert_eq!((e.status, e.message.as_str()), (404, "Object not found"));
    let e = failure_error(StorageFailure::BucketMissing);
    assert_eq!((e.status, e.message.as_str()), (500, "Could't find bucket"));
    let e = failure_error(StorageFailure::PathNotCreated);
    assert_eq!((e.status, e.message.as_str()), (500, "Could't find provided path"));
    let e = failure_error(StorageFailure::UploadPathNotEntered);
    assert_eq!((e.status, e.message.as_str()), (500, "Failed setting working dir to provided path"));
    let e = failure_error(StorageFailure::PathNotEntered);
    assert_eq!((e.status, e.message.as_str()), (500, "Could't set work dir as file path"));
    let e = failure_error(StorageFailure::FileNotWritten);
    assert_eq!((e.status, e.message.as_str()), (500, "Failed writing to provided file"));
    let e = failure_error(StorageFailure::FileNameMissing);
    assert_eq!((e.status, e.message.as_str()), (500, "Could't get file name"));
}
