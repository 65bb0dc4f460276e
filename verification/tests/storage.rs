use std::future::Future;
use std::task::{Context, Poll, Waker};

use buzz_media::config::MediaConfig;
use buzz_media::error::{MediaError, S3Failure};
use buzz_media::storage::{MediaStorage, PARTIAL_KEYS};
use s3::creds::error::CredentialsError;
use s3::creds::Credentials;
use s3::error::S3Error;
use s3::{Bucket, Region};

fn storage_config(access: &str, secret: &str) -> MediaConfig {
    MediaConfig {
        s3_endpoint: "http://localhost:9000".to_string(),
        s3_access_key: access.to_string(),
        s3_secret_key: secret.to_string(),
        s3_bucket: "buzz-media".to_string(),
        s3_region: "us-west-2".to_string(),
        max_image_bytes: 50 * 1024 * 1024,
        max_gif_bytes: 10 * 1024 * 1024,
        max_video_bytes: 524_288_000,
        max_file_bytes: 104_857_600,
        public_base_url: "http://localhost:3000/media".to_string(),
        upload_records_enabled: false,
        upload_ip_header: None,
        upload_port_header: None,
    }
}

fn ready<T>(future: impl Future<Output = T>) -> T {
    let mut future = Box::pin(future);
    match future
        .as_mut()
        .poll(&mut Context::from_waker(Waker::noop()))
    {
        Poll::Ready(value) => value,
        Poll::Pending => panic!("the future should be ready"),
    }
}

/// Static keys present: builds a client without touching the AWS
/// credential chain (no env/metadata access), and the signing region
/// comes from config rather than a hardcoded "us-east-1".
#[test]
fn static_keys_build_client_with_configured_region() {
    let storage = MediaStorage::new(&storage_config("buzz_dev", "buzz_dev_secret"))
        .expect("static creds should build a client");
    match storage.bucket().region {
        Region::Custom { ref region, .. } => assert_eq!(region, "us-west-2"),
        ref other => panic!("expected Custom region, got {other:?}"),
    }
}

#[test]
fn partial_static_keys_are_rejected() {
    let err = match MediaStorage::new(&storage_config("buzz_dev", "")) {
        Ok(_) => panic!("partial static creds must not silently use credential chain"),
        Err(err) => err,
    };
    assert!(
        err.to_string().contains("must be configured together"),
        "unexpected error: {err:?}"
    );

    let err = match MediaStorage::new(&storage_config("", "buzz_dev_secret")) {
        Ok(_) => panic!("partial static creds must not silently use credential chain"),
        Err(err) => err,
    };
    assert!(
        err.to_string().contains("must be configured together"),
        "unexpected error: {err:?}"
    );
}

#[test]
fn partial_keys_are_named_in_the_error() {
    let err = MediaStorage::new(&storage_config("buzz_dev", "")).err();
    assert_eq!(
        err,
        Some(MediaError::StorageError(PARTIAL_KEYS.to_string()))
    );
    assert_eq!(
        PARTIAL_KEYS,
        "s3_access_key and s3_secret_key must be configured together, or both empty to use the AWS credential chain"
    );
}

#[test]
fn client_serves_the_configured_bucket() {
    let storage = MediaStorage::new(&storage_config("buzz_dev", "buzz_dev_secret")).unwrap();
    let bucket = storage.bucket();
    assert_eq!(bucket.name(), "buzz-media");
    assert_eq!(
        bucket.region(),
        Region::Custom {
            region: "us-west-2".to_string(),
            endpoint: "http://localhost:9000".to_string(),
        }
    );
    assert!(bucket.is_path_style());
    assert_eq!(bucket.url(), "http://localhost:9000/buzz-media");
}

#[test]
fn client_uses_the_static_keys() {
    let storage = MediaStorage::new(&storage_config("buzz_dev", "buzz_dev_secret")).unwrap();
    let credentials = ready(storage.bucket().credentials()).unwrap();
    assert_eq!(credentials.access_key.as_deref(), Some("buzz_dev"));
    assert_eq!(credentials.secret_key.as_deref(), Some("buzz_dev_secret"));
    assert_eq!(credentials.security_token, None);
    assert_eq!(credentials.session_token, None);
}

#[test]
fn selected_credentials_reach_the_client() {
    let credentials = Credentials::new(Some("a"), Some("s"), Some("t"), Some("u"), None);
    let storage = MediaStorage::with_credentials(&storage_config("", ""), credentials).unwrap();
    let credentials = ready(storage.bucket().credentials()).unwrap();
    assert_eq!(credentials.access_key.as_deref(), Some("a"));
    assert_eq!(credentials.secret_key.as_deref(), Some("s"));
    assert_eq!(credentials.security_token.as_deref(), Some("t"));
    assert_eq!(credentials.session_token.as_deref(), Some("u"));
    assert_eq!(storage.bucket().name(), "buzz-media");
}

#[test]
fn failed_credential_selection_is_a_storage_error() {
    let storage = MediaStorage::with_credentials(
        &storage_config("", ""),
        Err(CredentialsError::NoCredentials),
    );
    assert_eq!(
        storage.err(),
        Some(MediaError::StorageError(
            "Could not get valid credentials from STS, ENV, Profile or Instance metadata"
                .to_string()
        ))
    );
}

#[test]
fn opened_bucket_is_addressed_by_path() {
    let bucket = Bucket::new(
        "other",
        Region::UsEast1,
        Credentials::anonymous().unwrap(),
    );
    assert!(!bucket.as_ref().unwrap().is_path_style());
    let storage = MediaStorage::with_bucket(bucket).unwrap();
    assert!(storage.bucket().is_path_style());
    assert_eq!(storage.bucket().name(), "other");
    assert_eq!(storage.bucket().region(), Region::UsEast1);
}

#[test]
fn failed_client_setup_is_a_storage_error() {
    let storage = MediaStorage::with_bucket(Err(S3Error::HttpFail));
    assert_eq!(
        storage.err(),
        Some(MediaError::StorageError(
            "Http request returned a non 2** code".to_string()
        ))
    );
}

#[test]
fn failures_keep_the_http_status() {
    let missing = S3Failure::new(&S3Error::HttpFailWithBody(404, "gone".to_string()));
    assert_eq!(missing.status, Some(404));
    assert_eq!(missing.message, "Got HTTP 404 with content 'gone'");
    assert!(missing.is_missing());

    let denied = S3Failure::new(&S3Error::HttpFailWithBody(403, String::new()));
    assert_eq!(denied.status, Some(403));
    assert!(!denied.is_missing());

    let other = S3Failure::new(&S3Error::HttpFail);
    assert_eq!(other.status, None);
    assert_eq!(other.message, "Http request returned a non 2** code");
    assert!(!other.is_missing());
}

#[test]
fn errors_have_a_text() {
    assert_eq!(MediaError::NotFound.to_string(), "not found");
    assert_eq!(
        MediaError::StorageError("down".to_string()).to_string(),
        "storage error: down"
    );
    assert_eq!(
        MediaError::Io("no such file".to_string()).to_string(),
        "io error: no such file"
    );
}

#[test]
fn failure_becomes_a_storage_error_whatever_its_status() {
    let failure = S3Failure {
        status: Some(404),
        message: "gone".to_string(),
    };
    assert_eq!(
        MediaError::from(failure),
        MediaError::StorageError("gone".to_string())
    );
}
