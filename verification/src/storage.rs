//! The storage client and the operations it offers.

use crate::client::{
    bucket_credentials, bucket_name, bucket_path_style, bucket_region, chain_can_give,
    credential_fields, custom_region, custom_region_parts, holds_static_keys,
};
use crate::config::MediaConfig;
use crate::error::MediaError;
use s3::creds::error::CredentialsError;
use s3::creds::Credentials;
use s3::error::S3Error;
use s3::Bucket;
use vstd::prelude::*;
use vstd::string::to_string_from_display_ensures;

verus! {

/// What `MediaStorage::new` says of a configuration with only one of the keys.
pub const PARTIAL_KEYS: &'static str =
    "s3_access_key and s3_secret_key must be configured together, or both empty to use the AWS credential chain";

/// `message` is how some failure to select credentials presents itself.
pub open spec fn is_credentials_error(message: String) -> bool {
    exists|e: CredentialsError| to_string_from_display_ensures(&e, message)
}

/// `message` is how some failure of the S3 client presents itself.
pub open spec fn is_client_error(message: String) -> bool {
    exists|e: S3Error| to_string_from_display_ensures(&e, message)
}

/// S3-compatible object storage client.
pub struct MediaStorage {
    bucket: Box<Bucket>,
}

impl MediaStorage {
    /// The bucket that requests go to.
    pub closed spec fn spec_bucket(&self) -> Bucket {
        *self.bucket
    }

    /// The client addresses the configured bucket, region and endpoint, by path.
    pub open spec fn serves(&self, config: &MediaConfig) -> bool {
        &&& bucket_name(self.spec_bucket()) == config.s3_bucket@
        &&& custom_region_parts(bucket_region(self.spec_bucket())) == Some(
            (config.s3_region@, config.s3_endpoint@),
        )
        &&& bucket_path_style(self.spec_bucket())
    }

    /// Create a new storage client from config.
    ///
    /// Credential selection:
    /// - If both `s3_access_key` and `s3_secret_key` are non-empty, use them as
    ///   static credentials (MinIO/local/dev, or any static-key deployment).
    /// - If both are empty, fall back to the AWS default credential chain via
    ///   [`Credentials::default`]: environment, shared profile, web-identity
    ///   token, container, and instance-metadata providers, in that order.
    /// - One key without the other is rejected.
    pub fn new(config: &MediaConfig) -> (storage: Result<Self, MediaError>)
        ensures
            config.has_partial_keys() ==> (storage matches Err(MediaError::StorageError(m)) && m@
                == PARTIAL_KEYS@),
            storage matches Ok(s) ==> !config.has_partial_keys() && s.serves(config),
            config.has_static_keys() ==> (storage matches Ok(s) ==> holds_static_keys(
                bucket_credentials(s.spec_bucket()),
                config.s3_access_key@,
                config.s3_secret_key@,
            )),
            !config.has_static_keys() ==> (storage matches Ok(s) ==> chain_can_give(
                Ok(bucket_credentials(s.spec_bucket())),
            )),
            storage matches Err(e) ==> e is StorageError,
            !config.has_partial_keys() ==> (storage matches Err(MediaError::StorageError(m)) ==> (
            is_client_error(m) || (!config.has_static_keys() && is_credentials_error(m)))),
            (config.s3_access_key@.len() > 0) != (config.s3_secret_key@.len() > 0) ==> (
            storage matches Err(MediaError::StorageError(m)) && m@
                == "s3_access_key and s3_secret_key must be configured together, or both empty to use the AWS credential chain"@),
            storage matches Ok(s) ==> {
                &&& bucket_name(s.spec_bucket()) == config.s3_bucket@
                &&& custom_region_parts(bucket_region(s.spec_bucket())) == Some(
                    (config.s3_region@, config.s3_endpoint@),
                )
                &&& bucket_path_style(s.spec_bucket())
            },
            config.s3_access_key@.len() > 0 && config.s3_secret_key@.len() > 0 ==> match storage {
                Ok(s) => credential_fields(bucket_credentials(s.spec_bucket())) == (
                    Some(config.s3_access_key@),
                    Some(config.s3_secret_key@),
                    None::<Seq<char>>,
                    None::<Seq<char>>,
                ),
                Err(error) => error is StorageError && exists|e: S3Error|
                    to_string_from_display_ensures(&e, storage->Err_0->StorageError_0),
            },
            config.s3_access_key@.len() == 0 && config.s3_secret_key@.len() == 0 ==> match storage {
                Ok(s) => chain_can_give(Ok(bucket_credentials(s.spec_bucket()))),
                Err(error) => error is StorageError && ((exists|e: CredentialsError|
                    #![trigger chain_can_give(Err(e))]
                    to_string_from_display_ensures(&e, storage->Err_0->StorageError_0)
                        && chain_can_give(Err(e))) || ((exists|c: Credentials|
                    chain_can_give(Ok(c))) && exists|e: S3Error|
                    to_string_from_display_ensures(&e, storage->Err_0->StorageError_0))),
            },
    {
        let credentials = match (
            config.s3_access_key.as_str().is_empty(),
            config.s3_secret_key.as_str().is_empty(),
        ) {
            (false, false) => Credentials::new(
                Some(config.s3_access_key.as_str()),
                Some(config.s3_secret_key.as_str()),
                None,
                None,
                None,
            ),
            (true, true) => Credentials::default(),
            _ => {
                return Err(MediaError::StorageError(PARTIAL_KEYS.to_string()));
            },
        };
        proof {
            // An outcome of the chain is one of its successes or one of its failures.
            assert(credentials is Ok ==> chain_can_give(credentials) == chain_can_give(
                Ok(credentials->Ok_0),
            ));
            assert(credentials is Err ==> chain_can_give(credentials) == chain_can_give(
                Err(credentials->Err_0),
            ));
        }
        Self::with_credentials(config, credentials)
    }

    /// Create a storage client from config and the outcome of the credential
    /// selection.
    pub fn with_credentials(
        config: &MediaConfig,
        credentials: Result<Credentials, CredentialsError>,
    ) -> (storage: Result<Self, MediaError>)
        ensures
            credentials matches Err(e) ==> (storage matches Err(MediaError::StorageError(m))
                && to_string_from_display_ensures(&e, m)),
            storage matches Ok(s) ==> s.serves(config) && credentials == Ok::<
                Credentials,
                CredentialsError,
            >(bucket_credentials(s.spec_bucket())),
            storage matches Err(e) ==> e is StorageError,
            credentials is Ok ==> (storage matches Err(MediaError::StorageError(m))
                ==> is_client_error(m)),
            match (credentials, storage) {
                (Ok(c), Ok(s)) => {
                    &&& bucket_name(s.spec_bucket()) == config.s3_bucket@
                    &&& custom_region_parts(bucket_region(s.spec_bucket())) == Some(
                        (config.s3_region@, config.s3_endpoint@),
                    )
                    &&& bucket_path_style(s.spec_bucket())
                    &&& bucket_credentials(s.spec_bucket()) == c
                },
                (Ok(_), Err(error)) => error is StorageError && exists|e: S3Error|
                    to_string_from_display_ensures(&e, storage->Err_0->StorageError_0),
                (Err(e), Ok(_)) => false,
                (Err(e), Err(error)) => error matches MediaError::StorageError(m)
                    && to_string_from_display_ensures(&e, m),
            },
    {
        match credentials {
            Ok(credentials) => {
                let region = custom_region(config.s3_region.clone(), config.s3_endpoint.clone());
                Self::with_bucket(Bucket::new(config.s3_bucket.as_str(), region, credentials))
            },
            Err(e) => Err(MediaError::StorageError(e.to_string())),
        }
    }

    /// A storage client on an opened bucket, which it addresses by path.
    pub fn with_bucket(bucket: Result<Box<Bucket>, S3Error>) -> (storage: Result<Self, MediaError>)
        ensures
            match bucket {
                Ok(b) => storage matches Ok(s) && bucket_name(s.spec_bucket()) == bucket_name(*b)
                    && bucket_region(s.spec_bucket()) == bucket_region(*b) && bucket_credentials(
                    s.spec_bucket(),
                ) == bucket_credentials(*b) && bucket_path_style(s.spec_bucket()),
                Err(e) => storage matches Err(MediaError::StorageError(m))
                    && to_string_from_display_ensures(&e, m),
            },
    {
        match bucket {
            Ok(bucket) => Ok(MediaStorage { bucket: bucket.with_path_style() }),
            Err(e) => Err(MediaError::StorageError(e.to_string())),
        }
    }

    /// The bucket that requests go to.
    pub fn bucket(&self) -> (bucket: &Bucket)
        ensures
            *bucket == self.spec_bucket(),
    {
        &self.bucket
    }
}

/// One key without the other never builds a client: the configuration is
/// refused with the advice to set both or neither.
pub proof fn one_key_alone_is_refused(config: MediaConfig, storage: Result<MediaStorage, MediaError>)
    requires
        call_ensures(MediaStorage::new, (&config,), storage),
    ensures
        storage is Ok ==> (config.s3_access_key@.len() == 0 <==> config.s3_secret_key@.len() == 0),
        (config.s3_access_key@.len() == 0) != (config.s3_secret_key@.len() == 0) ==> (
        storage matches Err(MediaError::StorageError(m)) && m@
            == "s3_access_key and s3_secret_key must be configured together, or both empty to use the AWS credential chain"@),
{
}

/// Every client addresses the configured bucket, in the configured region and
/// at the configured endpoint, by path.
pub proof fn client_addresses_what_is_configured(config: MediaConfig, storage: MediaStorage)
    requires
        call_ensures(MediaStorage::new, (&config,), Ok(storage)),
    ensures
        bucket_name(storage.spec_bucket()) == config.s3_bucket@,
        custom_region_parts(bucket_region(storage.spec_bucket())) == Some(
            (config.s3_region@, config.s3_endpoint@),
        ),
        bucket_path_style(storage.spec_bucket()),
{
}

/// With both keys set, the client signs with exactly these keys and no token,
/// and only the set-up of the client can fail: no selection of credentials has
/// a say.
pub proof fn static_keys_are_used_as_they_are(
    config: MediaConfig,
    storage: Result<MediaStorage, MediaError>,
)
    requires
        call_ensures(MediaStorage::new, (&config,), storage),
        config.s3_access_key@.len() > 0,
        config.s3_secret_key@.len() > 0,
    ensures
        storage matches Ok(s) ==> credential_fields(bucket_credentials(s.spec_bucket())) == (
            Some(config.s3_access_key@),
            Some(config.s3_secret_key@),
            None::<Seq<char>>,
            None::<Seq<char>>,
        ),
        storage matches Err(error) ==> error is StorageError && exists|e: S3Error|
            to_string_from_display_ensures(&e, storage->Err_0->StorageError_0),
{
}

/// With no key set, the outcome of the AWS credential chain decides: a client
/// signs with credentials that the chain gave, and a failure is the chain's own
/// failure in its own words, or one of the client's set-up on credentials that
/// the chain gave.
pub proof fn the_chain_decides_without_keys(
    config: MediaConfig,
    storage: Result<MediaStorage, MediaError>,
)
    requires
        call_ensures(MediaStorage::new, (&config,), storage),
        config.s3_access_key@.len() == 0,
        config.s3_secret_key@.len() == 0,
    ensures
        storage matches Ok(s) ==> chain_can_give(Ok(bucket_credentials(s.spec_bucket()))),
        storage matches Err(error) ==> error is StorageError && ((exists|e: CredentialsError|
            #![trigger chain_can_give(Err(e))]
            to_string_from_display_ensures(&e, storage->Err_0->StorageError_0)
                && chain_can_give(Err(e))) || ((exists|c: Credentials|
            chain_can_give(Ok(c))) && exists|e: S3Error|
            to_string_from_display_ensures(&e, storage->Err_0->StorageError_0))),
{
}

/// Selected credentials reach the client unchanged; a failed selection builds
/// none and keeps its words.
pub proof fn selection_decides_the_credentials(
    config: MediaConfig,
    credentials: Result<Credentials, CredentialsError>,
    storage: Result<MediaStorage, MediaError>,
)
    requires
        call_ensures(MediaStorage::with_credentials, (&config, credentials), storage),
    ensures
        storage matches Ok(s) ==> (credentials matches Ok(c) && bucket_credentials(s.spec_bucket())
            == c),
        credentials matches Err(e) ==> (storage matches Err(MediaError::StorageError(m))
            && to_string_from_display_ensures(&e, m)),
{
}

/// A client on an opened bucket keeps its name, region and credentials and
/// addresses it by path; a bucket that could not be opened builds none, and the
/// failure keeps its words.
pub proof fn opened_bucket_is_kept(
    bucket: Result<Box<Bucket>, S3Error>,
    storage: Result<MediaStorage, MediaError>,
)
    requires
        call_ensures(MediaStorage::with_bucket, (bucket,), storage),
    ensures
        storage is Ok <==> bucket is Ok,
        storage matches Ok(s) ==> (bucket matches Ok(b) && bucket_name(s.spec_bucket())
            == bucket_name(*b) && bucket_region(s.spec_bucket()) == bucket_region(*b)
            && bucket_credentials(s.spec_bucket()) == bucket_credentials(*b) && bucket_path_style(
            s.spec_bucket(),
        )),
        bucket matches Err(e) ==> (storage matches Err(MediaError::StorageError(m))
            && to_string_from_display_ensures(&e, m)),
{
}

} // verus!
