use buzz_media::bucket_index::{ListedObject, Listing, Page};
use buzz_media::config::MediaConfig;
use buzz_media::error::{MediaError, S3Failure};
use buzz_media::operations::{BlobHeadMeta, GetStream, StreamReply, READ_BUFFER};
use buzz_media::storage::MediaStorage;

fn storage() -> MediaStorage {
    MediaStorage::new(&MediaConfig {
        s3_endpoint: "http://localhost:9000".to_string(),
        s3_access_key: "buzz_dev".to_string(),
        s3_secret_key: "buzz_dev_secret".to_string(),
        s3_bucket: "buzz-media".to_string(),
        s3_region: "us-west-2".to_string(),
        max_image_bytes: 0,
        max_gif_bytes: 0,
        max_video_bytes: 0,
        max_file_bytes: 0,
        public_base_url: String::new(),
        upload_records_enabled: false,
        upload_ip_header: None,
        upload_port_header: None,
    })
    .unwrap()
}

fn failure(status: Option<u16>) -> S3Failure {
    S3Failure {
        status,
        message: "failed".to_string(),
    }
}

fn failed() -> MediaError {
    MediaError::StorageError("failed".to_string())
}

#[test]
fn put_asks_for_what_it_was_given() {
    let storage = storage();
    let request = storage.put("k", b"data", "image/png");
    assert_eq!(request.key, "k");
    assert_eq!(request.bytes, b"data");
    assert_eq!(request.content_type, "image/png");
    assert_eq!(request.finish(Ok(())), Ok(()));
    assert_eq!(
        storage.put("k", b"", "t").finish(Err(failure(Some(404)))),
        Err(failed())
    );
}

#[test]
fn put_file_reads_through_an_eight_mebibyte_buffer() {
    let storage = storage();
    let request = storage.put_file("k", "/tmp/video", "video/mp4");
    assert_eq!(request.key, "k");
    assert_eq!(request.path, "/tmp/video");
    assert_eq!(request.content_type, "video/mp4");
    assert_eq!(request.buffer_capacity, 8_388_608);
    assert_eq!(READ_BUFFER, 8_388_608);
    assert_eq!(request.opened(Ok(5)), Ok(5));
    assert_eq!(
        request.opened::<u8>(Err("no such file".to_string())),
        Err(MediaError::Io("no such file".to_string()))
    );
    assert_eq!(request.finish(Err(failure(None))), Err(failed()));
    assert_eq!(storage.put_file("k", (), "t").finish(Ok(())), Ok(()));
}

#[test]
fn get_tells_missing_from_failed() {
    let storage = storage();
    let request = storage.get("k");
    assert_eq!(request.key, "k");
    assert_eq!(request.finish(Ok(vec![1, 2])), Ok(vec![1, 2]));
    assert_eq!(
        storage.get("k").finish(Err(failure(Some(404)))),
        Err(MediaError::NotFound)
    );
    assert_eq!(
        storage.get("k").finish(Err(failure(Some(403)))),
        Err(failed())
    );
    assert_eq!(storage.get("k").finish(Err(failure(None))), Err(failed()));
}

#[test]
fn get_range_asks_for_both_ends() {
    let storage = storage();
    let request = storage.get_range("k", 3, 3);
    assert_eq!(request.key, "k");
    assert_eq!((request.start, request.end), (3, 3));
    assert_eq!(request.finish(Ok(vec![9])), Ok(vec![9]));
    let request = storage.get_range("k", 0, u64::MAX);
    assert_eq!((request.start, request.end), (0, u64::MAX));
    assert_eq!(
        request.finish(Err(failure(Some(404)))),
        Err(MediaError::NotFound)
    );
    assert_eq!(
        storage.get_range("k", 0, 1).finish(Err(failure(Some(500)))),
        Err(failed())
    );
}

#[test]
fn get_stream_finds_a_missing_object_in_the_status() {
    let storage = storage();
    let request = storage.get_stream("k");
    assert_eq!(request.key, "k");
    let reply = |status: u16| Ok(StreamReply { status, body: "body" });
    assert_eq!(request.opened(reply(200)), Ok("body"));
    assert_eq!(request.opened(reply(206)), Ok("body"));
    assert_eq!(request.opened(reply(404)), Err(MediaError::NotFound));
    assert_eq!(request.opened::<u8>(Err(failure(Some(404)))), Err(failed()));
    assert_eq!(request.opened::<u8>(Err(failure(None))), Err(failed()));
}

#[test]
fn stream_chunks_pass_and_failures_become_storage_errors() {
    assert_eq!(GetStream::chunk(Ok("chunk")), Ok("chunk"));
    assert_eq!(GetStream::chunk::<u8>(Err(failure(None))), Err(failed()));
}

#[test]
fn head_says_whether_the_object_exists() {
    let storage = storage();
    let request = storage.head("k");
    assert_eq!(request.key, "k");
    assert_eq!(request.finish(Ok("anything")), Ok(true));
    assert_eq!(
        storage.head("k").finish::<u8>(Err(failure(Some(404)))),
        Ok(false)
    );
    assert_eq!(
        storage.head("k").finish::<u8>(Err(failure(Some(503)))),
        Err(failed())
    );
}

#[test]
fn delete_reports_every_failure() {
    let storage = storage();
    let request = storage.delete("k");
    assert_eq!(request.key, "k");
    assert_eq!(request.finish(Ok(())), Ok(()));
    assert_eq!(
        storage.delete("k").finish(Err(failure(Some(404)))),
        Err(failed())
    );
}

#[test]
fn head_with_metadata_gives_the_size() {
    let storage = storage();
    assert_eq!(storage.head_with_metadata("k").key, "k");
    let head = |reply: Result<Option<i64>, S3Failure>| {
        storage.head_with_metadata("k").finish(reply)
    };
    assert_eq!(head(Ok(Some(42))), Ok(Some(BlobHeadMeta { size: 42 })));
    assert_eq!(head(Ok(None)), Ok(Some(BlobHeadMeta { size: 0 })));
    assert_eq!(
        head(Ok(Some(-1))),
        Ok(Some(BlobHeadMeta { size: u64::MAX }))
    );
    assert_eq!(head(Err(failure(Some(404)))), Ok(None));
    assert_eq!(head(Err(failure(Some(400)))), Err(failed()));
}

#[test]
fn head_answers_agree_on_existence() {
    let storage = storage();
    for reply in [
        Ok(Some(1)),
        Ok(None),
        Err(failure(Some(404))),
        Err(failure(Some(500))),
        Err(failure(None)),
    ] {
        let exists = storage.head("k").finish(reply.clone());
        let metadata = storage.head_with_metadata("k").finish(reply);
        assert_eq!(exists, metadata.map(|m| m.is_some()));
    }
}

#[test]
fn list_page_asks_for_the_whole_bucket() {
    let request = storage().list_page(Some("token".to_string()), 1000);
    assert_eq!(request.prefix, "");
    assert_eq!(request.delimiter, None);
    assert_eq!(request.continuation_token, Some("token".to_string()));
    assert_eq!(request.start_after, None);
    assert_eq!(request.max_keys, Some(1000));
}

#[test]
fn page_keeps_the_listing_in_order() {
    let object = |key: &str, size: u64| ListedObject {
        key: key.to_string(),
        size,
    };
    let listing = Listing {
        contents: vec![object("b", 2), object("a", 1), object("b", 2)],
        next_continuation_token: Some("next".to_string()),
        is_truncated: true,
    };
    let page = storage().list_page(None, 3).finish(Ok(listing)).unwrap();
    assert_eq!(
        page,
        Page {
            objects: vec![
                ("b".to_string(), 2),
                ("a".to_string(), 1),
                ("b".to_string(), 2)
            ],
            next_continuation_token: Some("next".to_string()),
            is_truncated: true,
        }
    );

    let empty = Page::new(Listing {
        contents: vec![],
        next_continuation_token: None,
        is_truncated: false,
    });
    assert!(empty.objects.is_empty());
    assert_eq!(empty.next_continuation_token, None);
    assert!(!empty.is_truncated);
}

#[test]
fn failed_listing_is_a_storage_error() {
    assert_eq!(
        storage().list_page(None, 1).finish(Err(failure(Some(404)))),
        Err(failed())
    );
}
