//! What can go wrong, and how a failure of the storage service is read.

use s3::error::S3Error;
use vstd::prelude::*;
use vstd::std_specs::convert::FromSpecImpl;
use vstd::string::to_string_from_display_ensures;

verus! {

/// `s3::error::S3Error`, carried as an opaque value.
#[verifier::external_type_specification]
#[verifier::external_body]
pub struct ExS3Error(S3Error);

/// The status code of an `S3Error` that reports a failed HTTP exchange
/// together with the response body (`S3Error::HttpFailWithBody`), and nothing
/// for every other kind of failure.
pub uninterp spec fn http_failure_status(error: S3Error) -> Option<u16>;

/// Reads `S3Error::HttpFailWithBody`: its status code, and nothing for the
/// other variants.
#[verifier::external_body]
fn status_of(error: &S3Error) -> (status: Option<u16>)
    ensures
        status == http_failure_status(*error),
{
    match error {
        S3Error::HttpFailWithBody(status, _) => Some(*status),
        _ => None,
    }
}

/// A request to the storage service that failed.
#[derive(Clone, Debug, PartialEq, Eq)]
pub struct S3Failure {
    /// The HTTP status, where the service answered with a failure.
    pub status: Option<u16>,
    /// The failure in words.
    pub message: String,
}

impl S3Failure {
    /// The failure that the client reported.
    pub fn new(error: &S3Error) -> (failure: Self)
        ensures
            failure.status == http_failure_status(*error),
            to_string_from_display_ensures(error, failure.message),
    {
        S3Failure { status: status_of(error), message: error.to_string() }
    }

    /// Whether the service says that there is no such object.
    pub open spec fn spec_is_missing(&self) -> bool {
        self.status == Some(404u16)
    }

    /// Whether the service says that there is no such object.
    pub fn is_missing(&self) -> (missing: bool)
        ensures
            missing == self.spec_is_missing(),
            missing <==> self.status == Some(404u16),
    {
        match self.status {
            Some(status) => status == 404,
            None => false,
        }
    }
}

/// The errors of the media store.
#[derive(Clone, Debug, PartialEq, Eq)]
pub enum MediaError {
    /// There is no such object.
    NotFound,
    /// The storage service, its client or a stored document failed.
    StorageError(String),
    /// A local file could not be read.
    Io(String),
}

impl FromSpecImpl<S3Failure> for MediaError {
    open spec fn obeys_from_spec() -> bool {
        true
    }

    open spec fn from_spec(failure: S3Failure) -> Self {
        MediaError::StorageError(failure.message)
    }
}

impl From<S3Failure> for MediaError {
    /// A failure is a storage error, whatever its status.
    fn from(failure: S3Failure) -> (error: Self)
        ensures
            error == MediaError::StorageError(failure.message),
    {
        MediaError::StorageError(failure.message)
    }
}

impl MediaError {
    /// The text that `to_string` gives.
    pub open spec fn spec_text(&self) -> Seq<char> {
        match self {
            MediaError::NotFound => "not found"@,
            MediaError::StorageError(message) => "storage error: "@ + message@,
            MediaError::Io(message) => "io error: "@ + message@,
        }
    }

    /// The error in words.
    pub fn to_string(&self) -> (text: String)
        ensures
            text@ == self.spec_text(),
            self is NotFound ==> text@ == "not found"@,
            self matches MediaError::StorageError(message) ==> text@ == "storage error: "@
                + message@,
            self matches MediaError::Io(message) ==> text@ == "io error: "@ + message@,
    {
        match self {
            MediaError::NotFound => "not found".to_string(),
            MediaError::StorageError(message) => "storage error: ".to_string().concat(
                message.as_str(),
            ),
            MediaError::Io(message) => "io error: ".to_string().concat(message.as_str()),
        }
    }
}

/// A failure says that the object is missing exactly where its status is 404.
pub proof fn only_a_404_says_missing(failure: S3Failure, missing: bool)
    requires
        call_ensures(S3Failure::is_missing, (&failure,), missing),
    ensures
        missing <==> failure.status == Some(404u16),
        failure.spec_is_missing() <==> failure.status == Some(404u16),
{
}

/// What the client reported is read for its status and its words.
pub proof fn failure_is_what_the_client_reported(error: S3Error, failure: S3Failure)
    requires
        call_ensures(S3Failure::new, (&error,), failure),
    ensures
        failure.status == http_failure_status(error),
        to_string_from_display_ensures(&error, failure.message),
{
}

/// The text of an error ends in the message that it carries.
pub proof fn error_text_ends_in_the_message(error: MediaError, text: String)
    requires
        call_ensures(MediaError::to_string, (&error,), text),
    ensures
        error matches MediaError::StorageError(message) ==> text@.len() == message@.len() + 15
            && text@.skip(15) == message@,
        error matches MediaError::Io(message) ==> text@.len() == message@.len() + 10 && text@.skip(
            10,
        ) == message@,
        error is NotFound ==> text@ == "not found"@,
{
    reveal_strlit("storage error: ");
    reveal_strlit("io error: ");
    if let MediaError::StorageError(message) = error {
        assert(text@.skip(15) =~= message@);
    }
    if let MediaError::Io(message) = error {
        assert(text@.skip(10) =~= message@);
    }
}

} // verus!
