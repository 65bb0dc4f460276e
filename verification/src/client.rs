//! The outside client types and what the library relies on about them.

use s3::creds::error::CredentialsError;
use s3::creds::Credentials;
use s3::error::S3Error;
use s3::{Bucket, Region};
use vstd::prelude::*;

verus! {

/// `s3::creds::Credentials`, carried as an opaque value.
#[verifier::external_type_specification]
#[verifier::external_body]
pub struct ExCredentials(Credentials);

/// `s3::creds::error::CredentialsError`, carried as an opaque value.
#[verifier::external_type_specification]
#[verifier::external_body]
pub struct ExCredentialsError(CredentialsError);

/// `s3::Region`, carried as an opaque value.
#[verifier::external_type_specification]
#[verifier::external_body]
pub struct ExRegion(Region);

/// `s3::Bucket`, carried as an opaque value.
#[verifier::external_type_specification]
#[verifier::external_body]
pub struct ExBucket(Bucket);

/// The access key, secret key, security token and session token that a
/// `Credentials` value holds in its four public text fields.
pub uninterp spec fn credential_fields(credentials: Credentials) -> (
    Option<Seq<char>>,
    Option<Seq<char>>,
    Option<Seq<char>>,
    Option<Seq<char>>,
);

/// The credentials are a pair of keys and no token.
pub open spec fn holds_static_keys(
    credentials: Credentials,
    access_key: Seq<char>,
    secret_key: Seq<char>,
) -> bool {
    credential_fields(credentials) == (
        Some(access_key),
        Some(secret_key),
        None::<Seq<char>>,
        None::<Seq<char>>,
    )
}

/// The view of an optional text argument.
pub open spec fn text_of(text: Option<&str>) -> Option<Seq<char>> {
    match text {
        Some(t) => Some(t@),
        None => None,
    }
}

/// `Credentials::new`: given an access key it succeeds, with the keys and
/// tokens as they were passed.
pub assume_specification[ Credentials::new ](
    access_key: Option<&str>,
    secret_key: Option<&str>,
    security_token: Option<&str>,
    session_token: Option<&str>,
    profile: Option<&str>,
) -> (credentials: Result<Credentials, CredentialsError>)
    ensures
        access_key is Some ==> credentials is Ok,
        access_key is Some ==> credential_fields(credentials->Ok_0) == (
            text_of(access_key),
            text_of(secret_key),
            text_of(security_token),
            text_of(session_token),
        ),
;

/// Whether the outcome, credentials or an error, is one that
/// `Credentials::default` can give, in some environment.
pub uninterp spec fn chain_can_give(outcome: Result<Credentials, CredentialsError>) -> bool;

/// `Credentials::default`: whatever the environment, the profile on disk, the
/// web-identity token, the container or the instance metadata give. Which
/// credentials these are, and whether there are any, depends on the machine;
/// the contract only says where the outcome comes from.
pub assume_specification[ Credentials::default ]() -> (credentials: Result<
    Credentials,
    CredentialsError,
>)
    ensures
        chain_can_give(credentials),
;

/// The region name and the endpoint of a `Region::Custom`, and nothing for the
/// other variants of `Region`.
pub uninterp spec fn custom_region_parts(region: Region) -> Option<(Seq<char>, Seq<char>)>;

/// `Region::Custom`, made of a region name and an endpoint.
#[verifier::external_body]
pub(crate) fn custom_region(name: String, endpoint: String) -> (region: Region)
    ensures
        custom_region_parts(region) == Some((name@, endpoint@)),
{
    Region::Custom { region: name, endpoint }
}

/// The name of the bucket that a `Bucket` stands for.
pub uninterp spec fn bucket_name(bucket: Bucket) -> Seq<char>;

/// The region that a `Bucket` is addressed in.
pub uninterp spec fn bucket_region(bucket: Bucket) -> Region;

/// The credentials that a `Bucket` was made with. (Expired ones are refreshed
/// while the bucket is in use.)
pub uninterp spec fn bucket_credentials(bucket: Bucket) -> Credentials;

/// Whether a `Bucket` puts its name into the path of a URL, as
/// `Bucket::is_path_style` says, and not into the host.
pub uninterp spec fn bucket_path_style(bucket: Bucket) -> bool;

/// `Bucket::new`: where it succeeds, the bucket has the name, the region and
/// the credentials that were passed and is addressed by subdomain. It fails
/// where the HTTP client cannot be set up, which depends on the machine, so
/// nothing is claimed of when it succeeds.
pub assume_specification[ Bucket::new ](
    name: &str,
    region: Region,
    credentials: Credentials,
) -> (bucket: Result<Box<Bucket>, S3Error>)
    ensures
        bucket is Ok ==> bucket_name(*bucket->Ok_0) == name@,
        bucket is Ok ==> bucket_region(*bucket->Ok_0) == region,
        bucket is Ok ==> bucket_credentials(*bucket->Ok_0) == credentials,
        bucket is Ok ==> !bucket_path_style(*bucket->Ok_0),
;

/// `Bucket::with_path_style`: the same bucket, addressed by path.
pub assume_specification[ Bucket::with_path_style ](bucket: &Bucket) -> (styled: Box<Bucket>)
    ensures
        bucket_name(*styled) == bucket_name(*bucket),
        bucket_region(*styled) == bucket_region(*bucket),
        bucket_credentials(*styled) == bucket_credentials(*bucket),
        bucket_path_style(*styled),
;

/// An optional text is viewed as the text that is there, or as none.
pub proof fn text_of_is_the_text(text: &str)
    ensures
        text_of(Some(text)) == Some(text@),
        text_of(None) is None,
{
}

} // verus!
