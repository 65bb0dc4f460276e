//! Listing the bucket page by page.

use crate::error::{MediaError, S3Failure};
use crate::storage::MediaStorage;
use vstd::prelude::*;

verus! {

/// An object as the service lists it.
#[derive(Clone, Debug, PartialEq, Eq)]
pub struct ListedObject {
    /// Key of the object.
    pub key: String,
    /// Size of the object in bytes.
    pub size: u64,
}

/// One response of the service to a listing request.
#[derive(Clone, Debug, PartialEq, Eq)]
pub struct Listing {
    /// The objects, in the order of the response.
    pub contents: Vec<ListedObject>,
    /// Where the next page begins.
    pub next_continuation_token: Option<String>,
    /// Whether the response leaves objects out.
    pub is_truncated: bool,
}

/// One page of a bucket listing, independent of the storage service.
#[derive(Clone, Debug, PartialEq, Eq)]
pub struct Page {
    /// Keys and sizes, in the order of the listing.
    pub objects: Vec<(String, u64)>,
    /// What to pass to the next request.
    pub next_continuation_token: Option<String>,
    /// Whether there is a next page.
    pub is_truncated: bool,
}

/// The keys and sizes of listed objects.
pub open spec fn entries(contents: Seq<ListedObject>) -> Seq<(String, u64)> {
    contents.map_values(|object: ListedObject| (object.key, object.size))
}

impl Page {
    /// The page that a response stands for.
    pub fn new(listing: Listing) -> (page: Self)
        ensures
            page.objects@ == entries(listing.contents@),
            page.objects@.len() == listing.contents@.len(),
            forall|i: int|
                0 <= i < listing.contents@.len() ==> (#[trigger] page.objects@[i]).0
                    == listing.contents@[i].key && page.objects@[i].1 == listing.contents@[i].size,
            page.next_continuation_token == listing.next_continuation_token,
            page.is_truncated == listing.is_truncated,
    {
        let ghost contents = listing.contents@;
        let mut objects: Vec<(String, u64)> = Vec::new();
        for object in it: listing.contents
            invariant
                it.seq() == contents,
                objects@ == entries(contents.take(it.index())),
        {
            proof {
                assert(contents.take(it.index() + 1).drop_last() == contents.take(it.index()));
            }
            objects.push((object.key, object.size));
            assert(objects@ == entries(contents.take(it.index() + 1)));
        }
        assert(contents.take(contents.len() as int) == contents);
        Page {
            objects,
            next_continuation_token: listing.next_continuation_token,
            is_truncated: listing.is_truncated,
        }
    }
}

/// Request one page of a listing.
#[derive(Debug)]
pub struct ListPage {
    /// What the keys listed begin with.
    pub prefix: String,
    /// What groups keys.
    pub delimiter: Option<String>,
    /// Where the page begins, as the page before said.
    pub continuation_token: Option<String>,
    /// The key that the listing begins after.
    pub start_after: Option<String>,
    /// The most objects that one response may list.
    pub max_keys: Option<usize>,
}

impl ListPage {
    /// The page, by the service's reply.
    pub fn finish(self, reply: Result<Listing, S3Failure>) -> (result: Result<Page, MediaError>)
        ensures
            match reply {
                Ok(listing) => result matches Ok(page) && page.objects@ == entries(
                    listing.contents@,
                ) && page.next_continuation_token == listing.next_continuation_token
                    && page.is_truncated == listing.is_truncated && page.objects@.len()
                    == listing.contents@.len() && forall|i: int|
                    0 <= i < listing.contents@.len() ==> (#[trigger] page.objects@[i]).0
                        == listing.contents@[i].key && page.objects@[i].1
                        == listing.contents@[i].size,
                Err(failure) => result == Err::<Page, MediaError>(
                    MediaError::StorageError(failure.message),
                ),
            },
    {
        match reply {
            Ok(listing) => Ok(Page::new(listing)),
            Err(failure) => Err(MediaError::from(failure)),
        }
    }
}

impl MediaStorage {
    /// One page of a full-bucket listing, for the storage sweep: every key, in
    /// no groups, from where the token says.
    ///
    /// `max_keys` bounds one HTTP response, not the sweep's total object cap,
    /// which the caller enforces across pages.
    pub fn list_page(&self, continuation_token: Option<String>, max_keys: usize) -> (request:
        ListPage)
        ensures
            request.prefix@.len() == 0,
            request.delimiter is None,
            request.continuation_token == continuation_token,
            request.start_after is None,
            request.max_keys == Some(max_keys),
    {
        ListPage {
            prefix: String::new(),
            delimiter: None,
            continuation_token,
            start_after: None,
            max_keys: Some(max_keys),
        }
    }
}

/// A page holds every listed object, each at its place in the listing with its
/// own key and size, and tells where the listing goes on.
pub proof fn page_loses_and_invents_nothing(listing: Listing, page: Page)
    requires
        call_ensures(Page::new, (listing,), page),
    ensures
        page.objects@.len() == listing.contents@.len(),
        forall|i: int|
            0 <= i < listing.contents@.len() ==> (#[trigger] page.objects@[i]).0
                == listing.contents@[i].key && page.objects@[i].1 == listing.contents@[i].size,
        page.next_continuation_token == listing.next_continuation_token,
        page.is_truncated == listing.is_truncated,
{
}

/// Different listings make different pages.
pub proof fn pages_differ_as_listings_do(
    listing: Listing,
    page: Page,
    other_listing: Listing,
    other_page: Page,
)
    requires
        call_ensures(Page::new, (listing,), page),
        call_ensures(Page::new, (other_listing,), other_page),
        page == other_page,
    ensures
        listing.contents@ == other_listing.contents@,
        listing.next_continuation_token == other_listing.next_continuation_token,
        listing.is_truncated == other_listing.is_truncated,
{
    assert(listing.contents@ =~= other_listing.contents@) by {
        assert forall|i: int| 0 <= i < listing.contents@.len() implies listing.contents@[i]
            == other_listing.contents@[i] by {
            assert(page.objects@[i].0 == listing.contents@[i].key);
            assert(other_page.objects@[i].0 == other_listing.contents@[i].key);
        }
    }
}

/// A listing request gives a page exactly where the service answered, with
/// every object of the response; a failure keeps its words.
pub proof fn list_page_reports_what_the_service_said(
    request: ListPage,
    reply: Result<Listing, S3Failure>,
    result: Result<Page, MediaError>,
)
    requires
        call_ensures(ListPage::finish, (request, reply), result),
    ensures
        result is Ok <==> reply is Ok,
        result matches Ok(page) ==> (reply matches Ok(listing) && page.objects@.len()
            == listing.contents@.len() && page.next_continuation_token
            == listing.next_continuation_token && page.is_truncated == listing.is_truncated
            && forall|i: int|
            0 <= i < listing.contents@.len() ==> (#[trigger] page.objects@[i]).0
                == listing.contents@[i].key && page.objects@[i].1 == listing.contents@[i].size),
        result matches Err(error) ==> (reply matches Err(failure) && error
            == MediaError::StorageError(failure.message)),
{
}

/// A listing covers the whole bucket: no prefix and no groups narrow it, and it
/// begins nowhere but where the token says.
pub proof fn listing_covers_the_bucket(
    storage: MediaStorage,
    continuation_token: Option<String>,
    max_keys: usize,
    request: ListPage,
)
    requires
        call_ensures(MediaStorage::list_page, (&storage, continuation_token, max_keys), request),
    ensures
        request.prefix@.len() == 0,
        request.delimiter is None,
        request.start_after is None,
        request.continuation_token == continuation_token,
        request.max_keys == Some(max_keys),
{
}

} // verus!
