use std::collections::HashMap;

use buzz_media::config::MediaConfig;
use buzz_media::error::{MediaError, S3Failure};
use buzz_media::sidecar::{bare_hash, BlobMeta};
use buzz_media::storage::MediaStorage;
use buzz_media::tenant::{CommunityId, TenantContext};

fn tenant(n: u128) -> TenantContext {
    TenantContext::resolved(
        CommunityId::from_uuid(uuid::Uuid::from_u128(n)),
        "media.example",
    )
}

fn storage() -> MediaStorage {
    MediaStorage::new(&MediaConfig {
        s3_endpoint: "http://localhost:9000".to_string(),
        s3_access_key: "buzz_dev".to_string(),
        s3_secret_key: "buzz_dev_secret".to_string(),
        s3_bucket: "buzz-media".to_string(),
        s3_region: "us-west-2".to_string(),
        max_image_bytes: 0,
        max_gif_bytes: 0,
        max_video_bytes: 0,
        max_file_bytes: 0,
        public_base_url: String::new(),
        upload_records_enabled: false,
        upload_ip_header: None,
        upload_port_header: None,
    })
    .unwrap()
}

fn meta(mime_type: &str) -> BlobMeta<f64> {
    BlobMeta {
        mime_type: mime_type.to_string(),
        ..BlobMeta::default()
    }
}

#[test]
fn sidecar_keys_are_community_scoped() {
    let a = tenant(1);
    let b = tenant(2);
    let sha = "f".repeat(64);

    assert_eq!(
        MediaStorage::ctx_sidecar_key(&a, &sha),
        format!("_meta/{}/{sha}.json", a.community().to_string())
    );
    assert_ne!(
        MediaStorage::ctx_sidecar_key(&a, &sha),
        MediaStorage::ctx_sidecar_key(&b, &sha)
    );
    assert_ne!(
        MediaStorage::ctx_sidecar_key(&a, &sha),
        format!("_meta/{sha}.json")
    );
}

/// The same bytes and hash can be known in A and B, but the sidecar is the
/// read/existence gate. If the community segment is dropped from
/// `sidecar_key`, B's metadata overwrites A's in this map and A observes B's
/// MIME (wrong answer, not absence).
#[test]
fn same_sha_sidecars_do_not_bleed_between_communities() {
    let a = tenant(1);
    let b = tenant(2);
    let sha = "a".repeat(64);
    let mut sidecars = HashMap::new();

    sidecars.insert(MediaStorage::ctx_sidecar_key(&a, &sha), "image/png");
    sidecars.insert(MediaStorage::ctx_sidecar_key(&b, &sha), "video/mp4");

    assert_eq!(
        sidecars[&MediaStorage::ctx_sidecar_key(&a, &sha)],
        "image/png"
    );
    assert_eq!(
        sidecars[&MediaStorage::ctx_sidecar_key(&b, &sha)],
        "video/mp4"
    );
}

#[test]
fn sidecar_key_has_the_hyphenated_community() {
    let community = CommunityId::from_uuid(uuid::Uuid::from_u128(
        0x0123_4567_89ab_cdef_fedc_ba98_7654_3210,
    ));
    assert_eq!(community.number, 0x0123_4567_89ab_cdef_fedc_ba98_7654_3210);
    assert_eq!(community.to_string(), "01234567-89ab-cdef-fedc-ba9876543210");
    assert_eq!(
        MediaStorage::sidecar_key(community, "abc"),
        "_meta/01234567-89ab-cdef-fedc-ba9876543210/abc.json"
    );
    assert_eq!(
        MediaStorage::sidecar_key(CommunityId { number: u128::MAX }, ""),
        "_meta/ffffffff-ffff-ffff-ffff-ffffffffffff/.json"
    );
}

#[test]
fn sidecar_keys_tell_communities_and_hashes_apart() {
    let mut keys = HashMap::new();
    for number in [0, 1, 0x10, 1 << 64, u128::MAX] {
        for sha in ["", "a", "a.json", "a/b", ".json"] {
            let key = MediaStorage::sidecar_key(CommunityId { number }, sha);
            assert_eq!(keys.insert(key, (number, sha)), None);
        }
    }
    assert_eq!(keys.len(), 25);
}

#[test]
fn sidecar_key_is_no_blob_key() {
    let sha = "b".repeat(64);
    let key = MediaStorage::ctx_sidecar_key(&tenant(1), &sha);
    assert_ne!(key, format!("{sha}.json"));
    assert_ne!(key, format!("{sha}.png"));
}

#[test]
fn tenant_keeps_community_and_host() {
    let ctx = tenant(7);
    assert_eq!(ctx.community(), CommunityId { number: 7 });
    assert_eq!(ctx.host(), "media.example");
}

#[test]
fn bare_hash_ends_at_the_first_dot() {
    assert_eq!(bare_hash("abc.jpg"), "abc");
    assert_eq!(bare_hash("abc.tar.gz"), "abc");
    assert_eq!(bare_hash("abc"), "abc");
    assert_eq!(bare_hash(".jpg"), "");
    assert_eq!(bare_hash(""), "");
    assert_eq!(bare_hash("h\u{e9}\u{1f41d}.x"), "h\u{e9}\u{1f41d}");
}

#[test]
fn sidecar_is_read_where_it_is_written() {
    let storage = storage();
    let ctx = tenant(3);
    let write = storage
        .put_sidecar(&ctx, "abc", Ok(b"{}".to_vec()))
        .unwrap();
    assert_eq!(write.key, "_meta/00000000-0000-0000-0000-000000000003/abc.json");
    assert_eq!(write.bytes, b"{}");
    assert_eq!(write.content_type, "application/json");
    assert_eq!(storage.get_sidecar(&ctx, "abc").key, write.key);
    assert_eq!(
        storage.read_sidecar_mime(&ctx, "abc.png").sidecar.key,
        write.key
    );
    assert_ne!(
        storage.read_sidecar_mime(&tenant(4), "abc.png").sidecar.key,
        write.key
    );
}

#[test]
fn unencodable_metadata_is_not_written() {
    let request = storage().put_sidecar(&tenant(3), "abc", Err("bad number".to_string()));
    assert_eq!(
        request.err(),
        Some(MediaError::StorageError("bad number".to_string()))
    );
}

#[test]
fn sidecar_read_gives_the_metadata_or_a_storage_error() {
    let storage = storage();
    let ctx = tenant(3);
    let read = storage
        .get_sidecar(&ctx, "abc")
        .finish(Ok(Ok(meta("image/png"))))
        .unwrap();
    assert_eq!(read.mime_type, "image/png");

    let unparsed = storage
        .get_sidecar(&ctx, "abc")
        .finish::<f64>(Ok(Err("expected value".to_string())));
    assert_eq!(
        unparsed.err(),
        Some(MediaError::StorageError("expected value".to_string()))
    );

    let missing = storage.get_sidecar(&ctx, "abc").finish::<f64>(Err(S3Failure {
        status: Some(404),
        message: "gone".to_string(),
    }));
    assert_eq!(
        missing.err(),
        Some(MediaError::StorageError("gone".to_string()))
    );
}

#[test]
fn mime_read_tells_no_failures_apart() {
    let storage = storage();
    let ctx = tenant(3);
    let read = || storage.read_sidecar_mime(&ctx, "abc.png");
    assert_eq!(
        read().finish(Ok(meta("image/png"))),
        Some("image/png".to_string())
    );
    assert_eq!(read().finish::<f64>(Err(MediaError::NotFound)), None);
    assert_eq!(
        read().finish::<f64>(Err(MediaError::StorageError("down".to_string()))),
        None
    );
}

#[test]
fn default_metadata_is_empty() {
    let meta = BlobMeta::<f64>::default();
    assert_eq!(meta.dim, "");
    assert_eq!(meta.blurhash, "");
    assert_eq!(meta.thumb_url, "");
    assert_eq!(meta.ext, "");
    assert_eq!(meta.mime_type, "");
    assert_eq!(meta.size, 0);
    assert_eq!(meta.uploaded_at, 0);
    assert_eq!(meta.duration_secs, None);
}
