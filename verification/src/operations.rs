//! The object operations of the store.
//!
//! An operation holds what to ask of the storage service. Whoever performs it
//! hands the service's reply to the operation's `finish`, which gives the
//! result for the caller.

use crate::error::{MediaError, S3Failure};
use crate::storage::MediaStorage;
use vstd::prelude::*;

verus! {

/// Size of the buffer that a file is read through while it is sent: 8 MiB.
pub const READ_BUFFER: usize = 8 * 1024 * 1024;

/// Metadata returned by HEAD, just enough for BUD-01 response headers.
#[derive(Clone, Copy, Debug, PartialEq, Eq, Structural)]
pub struct BlobHeadMeta {
    /// Size of the blob in bytes.
    pub size: u64,
}

/// The result of a request whose every failure is a storage error.
pub open spec fn settled<T>(reply: Result<T, S3Failure>) -> Result<T, MediaError> {
    match reply {
        Ok(value) => Ok(value),
        Err(failure) => Err(MediaError::StorageError(failure.message)),
    }
}

/// The result of a request that tells a missing object from other failures.
pub open spec fn fetched<T>(reply: Result<T, S3Failure>) -> Result<T, MediaError> {
    match reply {
        Ok(value) => Ok(value),
        Err(failure) => if failure.spec_is_missing() {
            Err(MediaError::NotFound)
        } else {
            Err(MediaError::StorageError(failure.message))
        },
    }
}

/// Whether an object exists, by the reply to HEAD.
pub open spec fn existence<T>(reply: Result<T, S3Failure>) -> Result<bool, MediaError> {
    match fetched(reply) {
        Ok(_) => Ok(true),
        Err(MediaError::NotFound) => Ok(false),
        Err(error) => Err(error),
    }
}

/// The size that a `Content-Length` stands for: none counts as zero, and a
/// negative one wraps around.
pub open spec fn content_size(content_length: Option<i64>) -> int {
    match content_length {
        None => 0,
        Some(length) => if length >= 0 {
            length as int
        } else {
            length + 0x1_0000_0000_0000_0000
        },
    }
}

/// The metadata of an object, by the `Content-Length` in the reply to HEAD.
pub open spec fn head_metadata(reply: Result<Option<i64>, S3Failure>) -> Result<
    Option<BlobHeadMeta>,
    MediaError,
> {
    match fetched(reply) {
        Ok(length) => Ok(Some(BlobHeadMeta { size: content_size(length) as u64 })),
        Err(MediaError::NotFound) => Ok(None),
        Err(error) => Err(error),
    }
}

/// One reply to HEAD says the same through `head` and `head_with_metadata`,
/// and what it says of existence agrees with what a read is answered.
pub proof fn head_answers_agree(reply: Result<Option<i64>, S3Failure>)
    ensures
        existence(reply) == Ok::<bool, MediaError>(true) <==> head_metadata(reply) matches Ok(
            Some(_),
        ),
        existence(reply) == Ok::<bool, MediaError>(false) <==> head_metadata(reply) matches Ok(
            None,
        ),
        existence(reply) == Ok::<bool, MediaError>(false) <==> fetched(reply) matches Err(
            MediaError::NotFound,
        ),
        forall|error: MediaError|
            existence(reply) == Err::<bool, MediaError>(error) <==> head_metadata(reply) == Err::<
                Option<BlobHeadMeta>,
                MediaError,
            >(error),
{
}

fn settle<T>(reply: Result<T, S3Failure>) -> (result: Result<T, MediaError>)
    ensures
        result == settled(reply),
{
    match reply {
        Ok(value) => Ok(value),
        Err(failure) => Err(MediaError::from(failure)),
    }
}

fn fetch<T>(reply: Result<T, S3Failure>) -> (result: Result<T, MediaError>)
    ensures
        result == fetched(reply),
{
    match reply {
        Ok(value) => Ok(value),
        Err(failure) => if failure.is_missing() {
            Err(MediaError::NotFound)
        } else {
            Err(MediaError::from(failure))
        },
    }
}

/// Store the bytes under the key.
#[derive(Debug)]
pub struct PutObject<'a> {
    /// Key of the object.
    pub key: &'a str,
    /// Content of the object.
    pub bytes: &'a [u8],
    /// MIME type to store it with.
    pub content_type: &'a str,
}

impl<'a> PutObject<'a> {
    /// The result for the caller, by the service's reply.
    pub fn finish(self, reply: Result<(), S3Failure>) -> (result: Result<(), MediaError>)
        ensures
            result == settled(reply),
            reply is Ok ==> result is Ok,
            reply matches Err(failure) ==> result == Err::<(), MediaError>(
                MediaError::StorageError(failure.message),
            ),
    {
        settle(reply)
    }
}

/// Stream the file at the path to the key. `P` is the type of a path.
#[derive(Debug)]
pub struct PutFile<'a, P> {
    /// Key of the object.
    pub key: &'a str,
    /// Where the content is.
    pub path: P,
    /// MIME type to store it with.
    pub content_type: &'a str,
    /// Capacity of the buffer to read the file through.
    pub buffer_capacity: usize,
}

impl<'a, P> PutFile<'a, P> {
    /// The file to send, or the error for the caller, by what became of opening
    /// it: the file, or the text of the failure.
    pub fn opened<F>(&self, file: Result<F, String>) -> (result: Result<F, MediaError>)
        ensures
            result == match file {
                Ok(file) => Ok::<F, MediaError>(file),
                Err(text) => Err::<F, MediaError>(MediaError::Io(text)),
            },
    {
        match file {
            Ok(file) => Ok(file),
            Err(text) => Err(MediaError::Io(text)),
        }
    }

    /// The result for the caller, by the service's reply.
    pub fn finish(self, reply: Result<(), S3Failure>) -> (result: Result<(), MediaError>)
        ensures
            result == settled(reply),
            reply is Ok ==> result is Ok,
            reply matches Err(failure) ==> result == Err::<(), MediaError>(
                MediaError::StorageError(failure.message),
            ),
    {
        settle(reply)
    }
}

/// Read the object.
#[derive(Debug)]
pub struct GetObject<'a> {
    /// Key of the object.
    pub key: &'a str,
}

impl<'a> GetObject<'a> {
    /// The object's bytes, by the service's reply.
    pub fn finish(self, reply: Result<Vec<u8>, S3Failure>) -> (result: Result<Vec<u8>, MediaError>)
        ensures
            result == fetched(reply),
            reply matches Ok(bytes) ==> result == Ok::<Vec<u8>, MediaError>(bytes),
            reply matches Err(failure) ==> result == Err::<Vec<u8>, MediaError>(
                if failure.status == Some(404u16) {
                    MediaError::NotFound
                } else {
                    MediaError::StorageError(failure.message)
                },
            ),
    {
        fetch(reply)
    }
}

/// Read a range of the object.
#[derive(Debug)]
pub struct GetRange<'a> {
    /// Key of the object.
    pub key: &'a str,
    /// Offset of the first byte.
    pub start: u64,
    /// Offset of the last byte.
    pub end: u64,
}

impl<'a> GetRange<'a> {
    /// The range's bytes, by the service's reply.
    pub fn finish(self, reply: Result<Vec<u8>, S3Failure>) -> (result: Result<Vec<u8>, MediaError>)
        ensures
            result == fetched(reply),
            reply matches Ok(bytes) ==> result == Ok::<Vec<u8>, MediaError>(bytes),
            reply matches Err(failure) ==> result == Err::<Vec<u8>, MediaError>(
                if failure.status == Some(404u16) {
                    MediaError::NotFound
                } else {
                    MediaError::StorageError(failure.message)
                },
            ),
    {
        fetch(reply)
    }
}

/// Read the object chunk by chunk.
#[derive(Debug)]
pub struct GetStream<'a> {
    /// Key of the object.
    pub key: &'a str,
}

/// What the service answers to a request for a stream. `B` is the type of a
/// body.
#[derive(Debug)]
pub struct StreamReply<B> {
    /// HTTP status of the response.
    pub status: u16,
    /// The body to read from.
    pub body: B,
}

impl<'a> GetStream<'a> {
    /// The body to stream, by the service's reply. A missing object shows in
    /// the status of the response; every failed request is a storage error.
    pub fn opened<B>(&self, reply: Result<StreamReply<B>, S3Failure>) -> (result: Result<
        B,
        MediaError,
    >)
        ensures
            match reply {
                Ok(response) => if response.status == 404 {
                    result == Err::<B, MediaError>(MediaError::NotFound)
                } else {
                    result == Ok::<B, MediaError>(response.body)
                },
                Err(failure) => result == Err::<B, MediaError>(
                    MediaError::StorageError(failure.message),
                ),
            },
    {
        match reply {
            Ok(response) => if response.status == 404 {
                Err(MediaError::NotFound)
            } else {
                Ok(response.body)
            },
            Err(failure) => Err(MediaError::from(failure)),
        }
    }

    /// A chunk of the body for the caller. `C` is the type of a chunk.
    pub fn chunk<C>(chunk: Result<C, S3Failure>) -> (result: Result<C, MediaError>)
        ensures
            result == settled(chunk),
            chunk matches Ok(c) ==> result == Ok::<C, MediaError>(c),
            chunk matches Err(failure) ==> result == Err::<C, MediaError>(
                MediaError::StorageError(failure.message),
            ),
    {
        settle(chunk)
    }
}

/// Ask whether the object exists.
#[derive(Debug)]
pub struct HeadObject<'a> {
    /// Key of the object.
    pub key: &'a str,
}

impl<'a> HeadObject<'a> {
    /// Whether the object exists, by the service's reply; what a success says
    /// of the object does not matter.
    pub fn finish<T>(self, reply: Result<T, S3Failure>) -> (result: Result<bool, MediaError>)
        ensures
            result == existence(reply),
            reply is Ok ==> result == Ok::<bool, MediaError>(true),
            reply matches Err(failure) ==> result == if failure.status == Some(404u16) {
                Ok::<bool, MediaError>(false)
            } else {
                Err::<bool, MediaError>(MediaError::StorageError(failure.message))
            },
    {
        match fetch(reply) {
            Ok(_) => Ok(true),
            Err(MediaError::NotFound) => Ok(false),
            Err(error) => Err(error),
        }
    }
}

/// Delete the object.
#[derive(Debug)]
pub struct DeleteObject<'a> {
    /// Key of the object.
    pub key: &'a str,
}

impl<'a> DeleteObject<'a> {
    /// The result for the caller, by the service's reply.
    pub fn finish(self, reply: Result<(), S3Failure>) -> (result: Result<(), MediaError>)
        ensures
            result == settled(reply),
            reply is Ok ==> result is Ok,
            reply matches Err(failure) ==> result == Err::<(), MediaError>(
                MediaError::StorageError(failure.message),
            ),
    {
        settle(reply)
    }
}

/// Ask for the object's metadata.
#[derive(Debug)]
pub struct HeadMetadata<'a> {
    /// Key of the object.
    pub key: &'a str,
}

impl<'a> HeadMetadata<'a> {
    /// The object's metadata, by the `Content-Length` in the service's reply.
    pub fn finish(self, reply: Result<Option<i64>, S3Failure>) -> (result: Result<
        Option<BlobHeadMeta>,
        MediaError,
    >)
        ensures
            result == head_metadata(reply),
            reply matches Ok(Some(length)) ==> (result matches Ok(Some(meta)) && meta.size == (
            if length >= 0 {
                length as int
            } else {
                length + 0x1_0000_0000_0000_0000
            })),
            reply matches Ok(None) ==> (result matches Ok(Some(meta)) && meta.size == 0),
            reply matches Err(failure) ==> result == if failure.status == Some(404u16) {
                Ok::<Option<BlobHeadMeta>, MediaError>(None)
            } else {
                Err::<Option<BlobHeadMeta>, MediaError>(MediaError::StorageError(failure.message))
            },
    {
        match fetch(reply) {
            Ok(content_length) => {
                let size: u64 = match content_length {
                    Some(length) => {
                        assert(length < 0 ==> #[verifier::truncate] (length as u64) == length
                            + 0x1_0000_0000_0000_0000) by (bit_vector);
                        #[verifier::truncate]
                        (length as u64)
                    },
                    None => 0,
                };
                Ok(Some(BlobHeadMeta { size }))
            },
            Err(MediaError::NotFound) => Ok(None),
            Err(error) => Err(error),
        }
    }
}

impl MediaStorage {
    /// Store an object from a byte slice.
    ///
    /// Used for images, sidecars, and thumbnails. For large video files use
    /// [`Self::put_file`] to avoid loading the entire blob into RAM.
    pub fn put<'a>(&self, key: &'a str, bytes: &'a [u8], content_type: &'a str) -> (request:
        PutObject<'a>)
        ensures
            request.key@ == key@,
            request.bytes@ == bytes@,
            request.content_type@ == content_type@,
    {
        PutObject { key, bytes, content_type }
    }

    /// Stream a file from disk without loading it into RAM: it is read
    /// incrementally through a buffer of [`READ_BUFFER`] bytes.
    pub fn put_file<'a, P>(&self, key: &'a str, path: P, content_type: &'a str) -> (request:
        PutFile<'a, P>)
        ensures
            request.key@ == key@,
            request.path == path,
            request.content_type@ == content_type@,
            request.buffer_capacity == READ_BUFFER,
            request.buffer_capacity == 8 * 1024 * 1024,
    {
        PutFile { key, path, content_type, buffer_capacity: READ_BUFFER }
    }

    /// Retrieve an object's bytes.
    pub fn get<'a>(&self, key: &'a str) -> (request: GetObject<'a>)
        ensures
            request.key@ == key@,
    {
        GetObject { key }
    }

    /// Retrieve a byte range from an object.
    ///
    /// `start` and `end` are inclusive byte offsets.
    pub fn get_range<'a>(&self, key: &'a str, start: u64, end: u64) -> (request: GetRange<'a>)
        requires
            start <= end,
        ensures
            request.key@ == key@,
            request.start == start,
            request.end == end,
    {
        GetRange { key, start, end }
    }

    /// Stream an object's bytes without loading them into RAM.
    pub fn get_stream<'a>(&self, key: &'a str) -> (request: GetStream<'a>)
        ensures
            request.key@ == key@,
    {
        GetStream { key }
    }

    /// Check if an object exists.
    pub fn head<'a>(&self, key: &'a str) -> (request: HeadObject<'a>)
        ensures
            request.key@ == key@,
    {
        HeadObject { key }
    }

    /// Delete an object.
    pub fn delete<'a>(&self, key: &'a str) -> (request: DeleteObject<'a>)
        ensures
            request.key@ == key@,
    {
        DeleteObject { key }
    }

    /// HEAD with metadata: the object's size.
    pub fn head_with_metadata<'a>(&self, key: &'a str) -> (request: HeadMetadata<'a>)
        ensures
            request.key@ == key@,
    {
        HeadMetadata { key }
    }
}

/// The size that `head_with_metadata` reports is the `Content-Length` of the
/// reply, and zero where the reply has none.
pub proof fn reported_size_is_the_content_length(
    request: HeadMetadata,
    content_length: Option<i64>,
    result: Result<Option<BlobHeadMeta>, MediaError>,
)
    requires
        call_ensures(HeadMetadata::finish, (request, Ok(content_length)), result),
    ensures
        result matches Ok(Some(meta)) && (content_length matches Some(length) ==> length >= 0
            ==> meta.size == length) && (content_length matches Some(length) ==> length < 0
            ==> meta.size - length == 0x1_0000_0000_0000_0000) && (content_length is None
            ==> meta.size == 0),
{
}

/// Objects of different lengths are reported with different sizes, and the
/// longer one with the larger size.
pub proof fn sizes_compare_as_lengths_do(
    request: HeadMetadata,
    length: i64,
    result: Result<Option<BlobHeadMeta>, MediaError>,
    other_request: HeadMetadata,
    other_length: i64,
    other_result: Result<Option<BlobHeadMeta>, MediaError>,
)
    requires
        call_ensures(HeadMetadata::finish, (request, Ok(Some(length))), result),
        call_ensures(HeadMetadata::finish, (other_request, Ok(Some(other_length))), other_result),
    ensures
        length != other_length ==> result != other_result,
        0 <= length < other_length ==> (result matches Ok(Some(meta)) && other_result matches Ok(
            Some(other_meta),
        ) && other_meta.size - meta.size == other_length - length),
{
}

/// `head` says that an object exists exactly where the service answered, that
/// it does not exactly where the service answered 404, and hands on every other
/// failure in its own words.
pub proof fn head_reports_what_the_service_said<T>(
    request: HeadObject,
    reply: Result<T, S3Failure>,
    result: Result<bool, MediaError>,
)
    requires
        call_ensures(HeadObject::finish::<T>, (request, reply), result),
    ensures
        result matches Ok(true) <==> reply is Ok,
        result matches Ok(false) <==> (reply matches Err(failure) && failure.status == Some(
            404u16,
        )),
        result is Err <==> (reply matches Err(failure) && failure.status != Some(404u16)),
        result matches Err(error) ==> (reply matches Err(failure) && error
            == MediaError::StorageError(failure.message)),
{
}

/// `head_with_metadata` finds an object exactly where the service answered,
/// finds none exactly where the service answered 404, and hands on every other
/// failure in its own words.
pub proof fn head_with_metadata_reports_what_the_service_said(
    request: HeadMetadata,
    reply: Result<Option<i64>, S3Failure>,
    result: Result<Option<BlobHeadMeta>, MediaError>,
)
    requires
        call_ensures(HeadMetadata::finish, (request, reply), result),
    ensures
        result matches Ok(Some(_)) <==> reply is Ok,
        result matches Ok(None) <==> (reply matches Err(failure) && failure.status == Some(404u16)),
        result is Err <==> (reply matches Err(failure) && failure.status != Some(404u16)),
        result matches Err(error) ==> (reply matches Err(failure) && error
            == MediaError::StorageError(failure.message)),
{
}

/// `get` reports an object as missing exactly where the service answered 404,
/// gives the bytes that the service gave, and hands on every other failure in
/// its own words.
pub proof fn get_reports_what_the_service_said(
    request: GetObject,
    reply: Result<Vec<u8>, S3Failure>,
    result: Result<Vec<u8>, MediaError>,
)
    requires
        call_ensures(GetObject::finish, (request, reply), result),
    ensures
        result is Ok <==> reply is Ok,
        result matches Ok(bytes) ==> (reply matches Ok(sent) && bytes@ == sent@),
        result matches Err(MediaError::NotFound) <==> (reply matches Err(failure) && failure.status
            == Some(404u16)),
        result matches Err(error) ==> error is NotFound || (reply matches Err(failure) && error
            == MediaError::StorageError(failure.message)),
{
}

/// `get_range` reports an object as missing exactly where the service answered
/// 404, gives the bytes that the service gave, and hands on every other failure
/// in its own words.
pub proof fn get_range_reports_what_the_service_said(
    request: GetRange,
    reply: Result<Vec<u8>, S3Failure>,
    result: Result<Vec<u8>, MediaError>,
)
    requires
        call_ensures(GetRange::finish, (request, reply), result),
    ensures
        result is Ok <==> reply is Ok,
        result matches Ok(bytes) ==> (reply matches Ok(sent) && bytes@ == sent@),
        result matches Err(MediaError::NotFound) <==> (reply matches Err(failure) && failure.status
            == Some(404u16)),
        result matches Err(error) ==> error is NotFound || (reply matches Err(failure) && error
            == MediaError::StorageError(failure.message)),
{
}

/// Two failures that differ in their status alone are told apart by `get`
/// exactly where one of them, and not the other, is a 404.
pub proof fn only_a_404_is_told_apart(
    request: GetObject,
    failure: S3Failure,
    result: Result<Vec<u8>, MediaError>,
    other_request: GetObject,
    other_failure: S3Failure,
    other_result: Result<Vec<u8>, MediaError>,
)
    requires
        call_ensures(GetObject::finish, (request, Err(failure)), result),
        call_ensures(GetObject::finish, (other_request, Err(other_failure)), other_result),
        failure.message == other_failure.message,
    ensures
        result == other_result <==> (failure.status == Some(404u16) <==> other_failure.status
            == Some(404u16)),
{
}

/// A failed write or deletion is never reported as a success, nor a success as
/// a failure, and the failure keeps its words, whatever its status.
pub proof fn writes_and_deletions_report_every_failure<P>(
    put: PutObject,
    put_result: Result<(), MediaError>,
    put_file: PutFile<P>,
    put_file_result: Result<(), MediaError>,
    delete: DeleteObject,
    delete_result: Result<(), MediaError>,
    reply: Result<(), S3Failure>,
)
    requires
        call_ensures(PutObject::finish, (put, reply), put_result),
        call_ensures(PutFile::<P>::finish, (put_file, reply), put_file_result),
        call_ensures(DeleteObject::finish, (delete, reply), delete_result),
    ensures
        put_result == put_file_result,
        put_result == delete_result,
        put_result is Ok <==> reply is Ok,
        put_result matches Err(error) ==> (reply matches Err(failure) && error
            == MediaError::StorageError(failure.message)),
{
}

/// A stream is opened exactly where the service answered with another status
/// than 404; only that status reports a missing object, and a failed request
/// keeps its words.
pub proof fn stream_opens_unless_missing_or_failed<B>(
    request: GetStream,
    reply: Result<StreamReply<B>, S3Failure>,
    result: Result<B, MediaError>,
)
    requires
        call_ensures(GetStream::opened::<B>, (&request, reply), result),
    ensures
        result is Ok <==> (reply matches Ok(response) && response.status != 404),
        result matches Ok(body) ==> (reply matches Ok(response) && body == response.body),
        result matches Err(MediaError::NotFound) <==> (reply matches Ok(response)
            && response.status == 404),
        result matches Err(error) ==> error is NotFound || (reply matches Err(failure) && error
            == MediaError::StorageError(failure.message)),
{
}

/// A stream's chunks reach the caller as they came, and its failures in their
/// own words.
pub proof fn chunks_pass_through<C>(chunk: Result<C, S3Failure>, result: Result<C, MediaError>)
    requires
        call_ensures(GetStream::chunk::<C>, (chunk,), result),
    ensures
        result is Ok <==> chunk is Ok,
        result matches Ok(bytes) ==> (chunk matches Ok(sent) && bytes == sent),
        result matches Err(error) ==> (chunk matches Err(failure) && error
            == MediaError::StorageError(failure.message)),
{
}

/// A write sends the bytes it was given to the key it was given, with the MIME
/// type it was given; a file goes through a buffer of 8 MiB.
pub proof fn writes_send_what_they_were_given<P>(
    storage: MediaStorage,
    key: &str,
    bytes: &[u8],
    path: P,
    content_type: &str,
    put: PutObject,
    put_file: PutFile<P>,
)
    requires
        call_ensures(MediaStorage::put, (&storage, key, bytes, content_type), put),
        call_ensures(MediaStorage::put_file::<P>, (&storage, key, path, content_type), put_file),
    ensures
        put.key@ == key@,
        put.bytes@ == bytes@,
        put.content_type@ == content_type@,
        put_file.key@ == key@,
        put_file.path == path,
        put_file.content_type@ == content_type@,
        put_file.buffer_capacity == 8_388_608,
{
}

/// A file is sent exactly where it could be opened; the failure to open it
/// keeps its words.
pub proof fn only_an_opened_file_is_sent<P, F>(
    request: PutFile<P>,
    file: Result<F, String>,
    result: Result<F, MediaError>,
)
    requires
        call_ensures(PutFile::<P>::opened::<F>, (&request, file), result),
    ensures
        result is Ok <==> file is Ok,
        result matches Ok(sent) ==> (file matches Ok(opened) && sent == opened),
        result matches Err(error) ==> (file matches Err(text) && error == MediaError::Io(text)),
{
}

/// A range is asked for from its first byte to its last.
pub proof fn range_is_asked_for_as_given(
    storage: MediaStorage,
    key: &str,
    start: u64,
    end: u64,
    request: GetRange,
)
    requires
        start <= end,
        call_ensures(MediaStorage::get_range, (&storage, key, start, end), request),
    ensures
        request.key@ == key@,
        request.start == start,
        request.end == end,
{
}

/// A read, a look-up or a deletion is about the key it was given.
pub proof fn requests_are_about_their_key(
    storage: MediaStorage,
    key: &str,
    get: GetObject,
    get_stream: GetStream,
    head: HeadObject,
    head_with_metadata: HeadMetadata,
    delete: DeleteObject,
)
    requires
        call_ensures(MediaStorage::get, (&storage, key), get),
        call_ensures(MediaStorage::get_stream, (&storage, key), get_stream),
        call_ensures(MediaStorage::head, (&storage, key), head),
        call_ensures(MediaStorage::head_with_metadata, (&storage, key), head_with_metadata),
        call_ensures(MediaStorage::delete, (&storage, key), delete),
    ensures
        get.key@ == key@,
        get_stream.key@ == key@,
        head.key@ == key@,
        head_with_metadata.key@ == key@,
        delete.key@ == key@,
{
}

} // verus!
