//! Metadata sidecars: one JSON document per community and blob.
//!
//! Raw media bytes are shared content-addressed storage (`{sha}.{ext}`); the
//! sidecar is the tenant read gate. Its key carries the community, so that a
//! blob in another community is never observable through it.

use crate::error::{MediaError, S3Failure};
use crate::storage::MediaStorage;
use crate::tenant::{
    hyphenated, hyphenated_is_injective, hyphenated_shape, CommunityId, TenantContext,
};
use vstd::prelude::*;

verus! {

/// Full blob metadata, stored as sidecar JSON in
/// `_meta/{community}/{sha256}.json`. `D` is the type of a duration.
#[derive(Debug, Clone)]
pub struct BlobMeta<D> {
    /// Pixel dimensions ("WxH").
    pub dim: String,
    /// Blurhash string.
    pub blurhash: String,
    /// Full URL to thumbnail.
    pub thumb_url: String,
    /// File extension (e.g. "jpg").
    pub ext: String,
    /// MIME type (e.g. "image/jpeg").
    pub mime_type: String,
    /// File size in bytes.
    pub size: u64,
    /// Unix timestamp when the blob was first uploaded.
    pub uploaded_at: i64,
    /// Video duration in seconds. `None` for non-video blobs.
    pub duration_secs: Option<D>,
}

impl<D> Default for BlobMeta<D> {
    fn default() -> (meta: Self)
        ensures
            meta.dim@.len() == 0,
            meta.blurhash@.len() == 0,
            meta.thumb_url@.len() == 0,
            meta.ext@.len() == 0,
            meta.mime_type@.len() == 0,
            meta.size == 0,
            meta.uploaded_at == 0,
            meta.duration_secs is None,
    {
        BlobMeta {
            dim: String::new(),
            blurhash: String::new(),
            thumb_url: String::new(),
            ext: String::new(),
            mime_type: String::new(),
            size: 0,
            uploaded_at: 0,
            duration_secs: None,
        }
    }
}

/// The key of the sidecar that a community has for a hash.
pub open spec fn sidecar_key_text(community: u128, sha256: Seq<char>) -> Seq<char> {
    "_meta/"@ + hyphenated(community) + "/"@ + sha256 + ".json"@
}

/// The key of a sidecar that belonged to no community.
pub open spec fn unscoped_key_text(sha256: Seq<char>) -> Seq<char> {
    "_meta/"@ + sha256 + ".json"@
}

/// The key of a blob's bytes, which all communities share.
pub open spec fn blob_key_text(sha256: Seq<char>, ext: Seq<char>) -> Seq<char> {
    sha256 + "."@ + ext
}

/// The part of a blob's name before its first dot; all of it where it has none.
pub open spec fn bare_hash_text(name: Seq<char>) -> Seq<char> {
    match name.index_of_first('.') {
        Some(dot) => name.take(dot),
        None => name,
    }
}

/// The sidecar that a community finds in a store for a hash.
pub open spec fn sidecar_in<V>(
    store: Map<Seq<char>, V>,
    community: u128,
    sha256: Seq<char>,
) -> Option<V> {
    let key = sidecar_key_text(community, sha256);
    if store.contains_key(key) {
        Some(store[key])
    } else {
        None
    }
}

/// A store after a community wrote a sidecar for a hash.
pub open spec fn with_sidecar<V>(
    store: Map<Seq<char>, V>,
    community: u128,
    sha256: Seq<char>,
    sidecar: V,
) -> Map<Seq<char>, V> {
    store.insert(sidecar_key_text(community, sha256), sidecar)
}

/// Sidecar keys tell communities and hashes apart: two sidecars share a key
/// only where both are the same.
pub proof fn sidecar_key_is_injective(a: u128, sha_a: Seq<char>, b: u128, sha_b: Seq<char>)
    requires
        sidecar_key_text(a, sha_a) == sidecar_key_text(b, sha_b),
    ensures
        a == b,
        sha_a == sha_b,
{
    reveal_strlit("_meta/");
    reveal_strlit("/");
    reveal_strlit(".json");
    hyphenated_shape(a);
    hyphenated_shape(b);
    let (ka, kb) = (sidecar_key_text(a, sha_a), sidecar_key_text(b, sha_b));
    assert(ka.subrange(6, 42) == hyphenated(a));
    assert(kb.subrange(6, 42) == hyphenated(b));
    hyphenated_is_injective(a, b);
    assert(ka.subrange(43, ka.len() - 5) == sha_a);
    assert(kb.subrange(43, kb.len() - 5) == sha_b);
}

/// A sidecar's key is the unscoped key of a text only where that text spells
/// out the community and the hash. It is never that of its own hash, nor of
/// any hash, as a hash holds no slash.
pub proof fn sidecar_key_is_never_unscoped(community: u128, sha256: Seq<char>, other: Seq<char>)
    ensures
        sidecar_key_text(community, sha256) == unscoped_key_text(other) <==> other == hyphenated(
            community,
        ) + "/"@ + sha256,
        sidecar_key_text(community, sha256) != unscoped_key_text(sha256),
        !other.contains('/') ==> sidecar_key_text(community, sha256) != unscoped_key_text(other),
{
    reveal_strlit("_meta/");
    reveal_strlit("/");
    reveal_strlit(".json");
    hyphenated_shape(community);
    let inner = hyphenated(community) + "/"@ + sha256;
    let (scoped, unscoped) = (sidecar_key_text(community, sha256), unscoped_key_text(other));
    assert(scoped == unscoped_key_text(inner));
    assert(inner[36] == '/');
    assert(scoped.subrange(6, scoped.len() - 5) == inner);
    assert(unscoped.subrange(6, unscoped.len() - 5) == other);
    assert(scoped.len() != unscoped_key_text(sha256).len());
}

/// A sidecar's key is never that of a blob's bytes, unless the blob's name
/// begins as a sidecar's key does.
pub proof fn sidecar_key_is_no_blob_key(
    community: u128,
    sha256: Seq<char>,
    blob: Seq<char>,
    ext: Seq<char>,
)
    requires
        !("_meta/"@ + hyphenated(community) + "/"@).is_prefix_of(blob),
    ensures
        sidecar_key_text(community, sha256) != blob_key_text(blob, ext),
{
    reveal_strlit("_meta/");
    reveal_strlit("/");
    reveal_strlit(".");
    reveal_strlit(".json");
    hyphenated_shape(community);
    let prefix = "_meta/"@ + hyphenated(community) + "/"@;
    let (sidecar, bytes) = (sidecar_key_text(community, sha256), blob_key_text(blob, ext));
    if sidecar == bytes {
        let dot = blob.len() as int;
        assert(bytes[dot] == '.');
        assert(sidecar.take(43) == prefix);
        if dot < 43 {
            assert(prefix[dot] == '.');
            if 6 <= dot < 42 {
                assert(hyphenated(community)[dot - 6] == '.');
            }
        } else {
            assert(bytes.take(43) == blob.take(43));
            assert(prefix =~= blob.subrange(0, 43));
        }
    }
}

/// A community reads back the sidecar that it wrote.
pub proof fn written_sidecar_is_read_back<V>(
    store: Map<Seq<char>, V>,
    community: u128,
    sha256: Seq<char>,
    sidecar: V,
)
    ensures
        sidecar_in(with_sidecar(store, community, sha256, sidecar), community, sha256) == Some(
            sidecar,
        ),
{
}

/// Writing a sidecar changes no other one: not that of another community, the
/// same hash included, and not that of another hash.
pub proof fn sidecars_do_not_bleed<V>(
    store: Map<Seq<char>, V>,
    writer: u128,
    written: Seq<char>,
    sidecar: V,
    reader: u128,
    sha256: Seq<char>,
)
    requires
        writer != reader || written != sha256,
    ensures
        sidecar_in(with_sidecar(store, writer, written, sidecar), reader, sha256) == sidecar_in(
            store,
            reader,
            sha256,
        ),
{
    if sidecar_key_text(writer, written) == sidecar_key_text(reader, sha256) {
        sidecar_key_is_injective(writer, written, reader, sha256);
    }
}

/// Storing a blob's bytes changes no sidecar: that the bytes are there gives
/// no community a view of them.
pub proof fn blob_bytes_open_no_sidecar<V>(
    store: Map<Seq<char>, V>,
    blob: Seq<char>,
    ext: Seq<char>,
    bytes: V,
    reader: u128,
    sha256: Seq<char>,
)
    requires
        !("_meta/"@ + hyphenated(reader) + "/"@).is_prefix_of(blob),
    ensures
        sidecar_in(store.insert(blob_key_text(blob, ext), bytes), reader, sha256) == sidecar_in(
            store,
            reader,
            sha256,
        ),
{
    sidecar_key_is_no_blob_key(reader, sha256, blob, ext);
}

/// The name of a blob leads to its hash, whatever its extension; a hash alone
/// leads to itself.
pub proof fn extension_does_not_matter(sha256: Seq<char>, ext: Seq<char>)
    requires
        !sha256.contains('.'),
    ensures
        bare_hash_text(blob_key_text(sha256, ext)) == sha256,
        bare_hash_text(sha256) == sha256,
{
    reveal_strlit(".");
    let name = blob_key_text(sha256, ext);
    name.index_of_first_ensures('.');
    sha256.index_of_first_ensures('.');
    assert(name[sha256.len() as int] == '.');
    let dot = name.index_of_first('.')->0;
    if dot < sha256.len() {
        assert(sha256[dot] == '.');
    }
    assert(name.take(dot) == sha256);
}

/// What a reader is told of a sidecar: the document, where the store has one,
/// and an error otherwise.
pub open spec fn sidecar_answer<D>(
    store: Map<Seq<char>, BlobMeta<D>>,
    community: u128,
    sha256: Seq<char>,
    error: MediaError,
) -> Result<BlobMeta<D>, MediaError> {
    match sidecar_in(store, community, sha256) {
        Some(meta) => Ok(meta),
        None => Err(error),
    }
}

/// The MIME type that a sidecar read comes to.
pub open spec fn mime_of<D>(meta: Result<BlobMeta<D>, MediaError>) -> Option<String> {
    match meta {
        Ok(meta) => Some(meta.mime_type),
        Err(_) => None,
    }
}

/// A reader cannot tell a blob that only another community has from one that
/// nobody has: the answer is the same, whatever the error behind it.
pub proof fn foreign_blob_reads_as_missing<D>(
    store: Map<Seq<char>, BlobMeta<D>>,
    owner: u128,
    written: Seq<char>,
    meta: BlobMeta<D>,
    reader: u128,
    name: Seq<char>,
    error: MediaError,
    other_error: MediaError,
)
    requires
        owner != reader,
    ensures
        mime_of(
            sidecar_answer(
                with_sidecar(store, owner, written, meta),
                reader,
                bare_hash_text(name),
                error,
            ),
        ) == mime_of(sidecar_answer(store, reader, bare_hash_text(name), other_error)),
{
    sidecars_do_not_bleed(store, owner, written, meta, reader, bare_hash_text(name));
}

/// A community that wrote a sidecar reads its MIME type back by the blob's
/// name, whatever its extension.
pub proof fn written_mime_is_read_back<D>(
    store: Map<Seq<char>, BlobMeta<D>>,
    community: u128,
    sha256: Seq<char>,
    ext: Seq<char>,
    meta: BlobMeta<D>,
    error: MediaError,
)
    requires
        !sha256.contains('.'),
    ensures
        mime_of(
            sidecar_answer(
                with_sidecar(store, community, sha256, meta),
                community,
                bare_hash_text(blob_key_text(sha256, ext)),
                error,
            ),
        ) == Some(meta.mime_type),
{
    extension_does_not_matter(sha256, ext);
}

/// The part of a blob's name before its first dot; all of it where it has none.
pub fn bare_hash<'a>(sha256_ext: &'a str) -> (sha256: &'a str)
    ensures
        sha256@ == bare_hash_text(sha256_ext@),
        sha256@.is_prefix_of(sha256_ext@),
        !sha256@.contains('.'),
        sha256@.len() < sha256_ext@.len() ==> sha256_ext@[sha256@.len() as int] == '.',
{
    let len: usize = sha256_ext.unicode_len();
    let mut dot: usize = 0;
    proof {
        sha256_ext@.index_of_first_ensures('.');
    }
    for c in it: sha256_ext.chars()
        invariant
            len == sha256_ext@.len(),
            it.seq() == sha256_ext@,
            dot == it.index(),
            forall|i: int| 0 <= i < dot ==> sha256_ext@[i] != '.',
            match sha256_ext@.index_of_first('.') {
                Some(first) => {
                    &&& 0 <= first < sha256_ext@.len()
                    &&& sha256_ext@[first] == '.'
                    &&& forall|j: int| 0 <= j < first ==> sha256_ext@[j] != '.'
                },
                None => !sha256_ext@.contains('.'),
            },
    {
        if c == '.' {
            assert(sha256_ext@[dot as int] == '.');
            return sha256_ext.substring_char(0, dot);
        }
        dot = dot + 1;
    }
    sha256_ext
}

/// Read the sidecar.
#[derive(Debug)]
pub struct GetSidecar {
    /// Key of the sidecar.
    pub key: String,
}

impl GetSidecar {
    /// The metadata, by the service's reply: the failure of the request, or
    /// what became of parsing the document, which is the metadata or the text
    /// of the failure.
    pub fn finish<D>(&self, reply: Result<Result<BlobMeta<D>, String>, S3Failure>) -> (result:
        Result<BlobMeta<D>, MediaError>)
        ensures
            result == match reply {
                Ok(Ok(meta)) => Ok::<BlobMeta<D>, MediaError>(meta),
                Ok(Err(text)) => Err::<BlobMeta<D>, MediaError>(MediaError::StorageError(text)),
                Err(failure) => Err::<BlobMeta<D>, MediaError>(
                    MediaError::StorageError(failure.message),
                ),
            },
    {
        match reply {
            Ok(Ok(meta)) => Ok(meta),
            Ok(Err(text)) => Err(MediaError::StorageError(text)),
            Err(failure) => Err(MediaError::from(failure)),
        }
    }
}

/// Store the sidecar. To be sent as [`MediaStorage::put`] sends any object.
#[derive(Debug)]
pub struct PutSidecar {
    /// Key of the sidecar.
    pub key: String,
    /// The JSON document.
    pub bytes: Vec<u8>,
    /// MIME type to store it with.
    pub content_type: &'static str,
}

/// Read the MIME type from the sidecar.
#[derive(Debug)]
pub struct ReadSidecarMime {
    /// The sidecar to read.
    pub sidecar: GetSidecar,
}

impl ReadSidecarMime {
    /// The MIME type, by the result of reading the sidecar.
    ///
    /// Gives `None` for both absent sidecars and storage read failures, so that
    /// a request cannot tell a blob of another community from a missing one.
    pub fn finish<D>(&self, meta: Result<BlobMeta<D>, MediaError>) -> (mime: Option<String>)
        ensures
            mime == mime_of(meta),
            meta matches Ok(m) ==> mime == Some(m.mime_type),
            meta is Err ==> mime is None,
    {
        match meta {
            Ok(meta) => Some(meta.mime_type),
            Err(_) => None,
        }
    }
}

impl MediaStorage {
    /// Build the community-scoped sidecar key for a given sha256 (bare hash).
    ///
    /// Raw media bytes remain shared content-addressed storage (`{sha}.{ext}`),
    /// but the metadata sidecar is the tenant read gate. A blob in another
    /// community must never be observable through a global `_meta/{sha}.json`
    /// lookup.
    pub fn sidecar_key(community: CommunityId, sha256: &str) -> (key: String)
        ensures
            key@ == sidecar_key_text(community@, sha256@),
            key@ == "_meta/"@ + hyphenated(community.number) + "/"@ + sha256@ + ".json"@,
    {
        let community = community.to_string();
        "_meta/".to_string().concat(community.as_str()).concat("/").concat(sha256).concat(".json")
    }

    /// Build the community-scoped sidecar key from the resolved request tenant.
    pub fn ctx_sidecar_key(ctx: &TenantContext, sha256: &str) -> (key: String)
        ensures
            key@ == sidecar_key_text(ctx.spec_community()@, sha256@),
            key@ == "_meta/"@ + hyphenated(ctx.spec_community().number) + "/"@ + sha256@ + ".json"@,
    {
        Self::sidecar_key(ctx.community(), sha256)
    }

    /// Read community-scoped sidecar JSON for a given sha256 (bare hash).
    pub fn get_sidecar(&self, ctx: &TenantContext, sha256: &str) -> (request: GetSidecar)
        ensures
            request.key@ == sidecar_key_text(ctx.spec_community()@, sha256@),
            request.key@ == "_meta/"@ + hyphenated(ctx.spec_community().number) + "/"@ + sha256@
                + ".json"@,
    {
        GetSidecar { key: Self::ctx_sidecar_key(ctx, sha256) }
    }

    /// Write community-scoped sidecar JSON for a given sha256 (bare hash).
    /// `meta_json` is what became of encoding the metadata: the document, or
    /// the text of the failure.
    ///
    /// `ctx` must be the server-resolved request tenant. Callers must never
    /// derive the community from client-supplied blob metadata, URLs, or event
    /// tags; this sidecar key is the tenant read gate for otherwise shared
    /// bytes.
    pub fn put_sidecar(
        &self,
        ctx: &TenantContext,
        sha256: &str,
        meta_json: Result<Vec<u8>, String>,
    ) -> (request: Result<PutSidecar, MediaError>)
        ensures
            match meta_json {
                Ok(bytes) => request matches Ok(r) && r.key@ == sidecar_key_text(
                    ctx.spec_community()@,
                    sha256@,
                ) && r.key@ == "_meta/"@ + hyphenated(ctx.spec_community().number) + "/"@ + sha256@
                    + ".json"@ && r.bytes == bytes && r.content_type@ == "application/json"@,
                Err(text) => request == Err::<PutSidecar, MediaError>(
                    MediaError::StorageError(text),
                ),
            },
    {
        let key = Self::ctx_sidecar_key(ctx, sha256);
        match meta_json {
            Ok(bytes) => Ok(PutSidecar { key, bytes, content_type: "application/json" }),
            Err(text) => Err(MediaError::StorageError(text)),
        }
    }

    /// Read just the MIME type from the community sidecar of the blob that the
    /// name, with or without extension, stands for.
    pub fn read_sidecar_mime(&self, ctx: &TenantContext, sha256_ext: &str) -> (request:
        ReadSidecarMime)
        ensures
            request.sidecar.key@ == sidecar_key_text(
                ctx.spec_community()@,
                bare_hash_text(sha256_ext@),
            ),
            exists|sha256: Seq<char>|
                {
                    &&& #[trigger] sha256.is_prefix_of(sha256_ext@)
                    &&& !sha256.contains('.')
                    &&& sha256.len() < sha256_ext@.len() ==> sha256_ext@[sha256.len() as int] == '.'
                    &&& request.sidecar.key@ == "_meta/"@ + hyphenated(
                        ctx.spec_community().number,
                    ) + "/"@ + sha256 + ".json"@
                },
    {
        ReadSidecarMime { sidecar: self.get_sidecar(ctx, bare_hash(sha256_ext)) }
    }
}

/// A sidecar's key lies under `_meta/` and its community, and ends in the hash
/// and `.json`.
pub proof fn sidecar_key_spells_its_parts(community: CommunityId, sha256: &str, key: String)
    requires
        call_ensures(MediaStorage::sidecar_key, (community, sha256), key),
    ensures
        key@.len() == sha256@.len() + 48,
        key@.subrange(0, 6) == seq!['_', 'm', 'e', 't', 'a', '/'],
        key@.subrange(6, 42) == hyphenated(community.number),
        key@[42] == '/',
        key@.subrange(43, key@.len() - 5) == sha256@,
        key@.subrange(key@.len() - 5, key@.len() as int) == seq!['.', 'j', 's', 'o', 'n'],
{
    reveal_strlit("_meta/");
    reveal_strlit("/");
    reveal_strlit(".json");
    hyphenated_shape(community.number);
    assert(key@.subrange(0, 6) =~= seq!['_', 'm', 'e', 't', 'a', '/']);
    assert(key@.subrange(6, 42) =~= hyphenated(community.number));
    assert(key@.subrange(43, key@.len() - 5) =~= sha256@);
    assert(key@.subrange(key@.len() - 5, key@.len() as int) =~= seq!['.', 'j', 's', 'o', 'n']);
}

/// Two requests reach the same sidecar exactly where their tenants are of the
/// same community and their hashes are the same.
pub proof fn tenants_share_a_key_only_within_a_community(
    ctx: TenantContext,
    sha256: &str,
    key: String,
    other_ctx: TenantContext,
    other_sha256: &str,
    other_key: String,
)
    requires
        call_ensures(MediaStorage::ctx_sidecar_key, (&ctx, sha256), key),
        call_ensures(MediaStorage::ctx_sidecar_key, (&other_ctx, other_sha256), other_key),
    ensures
        key@ == other_key@ <==> ctx.spec_community() == other_ctx.spec_community() && sha256@
            == other_sha256@,
{
    let (a, b) = (ctx.spec_community().number, other_ctx.spec_community().number);
    if key@ == other_key@ {
        sidecar_key_is_injective(a, sha256@, b, other_sha256@);
    }
}

/// What a community writes as a sidecar is what it reads for the same hash, and
/// what its MIME reads look at for every name of the blob.
pub proof fn sidecar_requests_meet(
    storage: MediaStorage,
    ctx: TenantContext,
    sha256: &str,
    name: &str,
    document: Vec<u8>,
    write: Result<PutSidecar, MediaError>,
    read: GetSidecar,
    mime: ReadSidecarMime,
)
    requires
        call_ensures(MediaStorage::put_sidecar, (&storage, &ctx, sha256, Ok(document)), write),
        call_ensures(MediaStorage::get_sidecar, (&storage, &ctx, sha256), read),
        call_ensures(MediaStorage::read_sidecar_mime, (&storage, &ctx, name), mime),
        !sha256@.contains('.'),
        sha256@.is_prefix_of(name@),
        sha256@.len() < name@.len() ==> name@[sha256@.len() as int] == '.',
    ensures
        write matches Ok(w) && w.key@ == read.key@ && w.bytes@ == document@,
        mime.sidecar.key@ == read.key@,
{
    let hash = choose|hash: Seq<char>|
        {
            &&& #[trigger] hash.is_prefix_of(name@)
            &&& !hash.contains('.')
            &&& hash.len() < name@.len() ==> name@[hash.len() as int] == '.'
            &&& mime.sidecar.key@ == "_meta/"@ + hyphenated(ctx.spec_community().number) + "/"@
                + hash + ".json"@
        };
    if hash.len() < sha256@.len() {
        assert(sha256@[hash.len() as int] == '.');
    } else if sha256@.len() < hash.len() {
        assert(hash[sha256@.len() as int] == '.');
    }
    assert(hash =~= sha256@);
}

/// The bare hash of a name is its longest beginning without a dot.
pub proof fn bare_hash_is_the_longest_beginning_without_a_dot(
    name: &str,
    sha256: &str,
    other: Seq<char>,
)
    requires
        call_ensures(bare_hash, (name,), sha256),
    ensures
        sha256@.is_prefix_of(name@),
        !sha256@.contains('.'),
        other.is_prefix_of(name@) && !other.contains('.') ==> other.is_prefix_of(sha256@),
{
    if other.is_prefix_of(name@) && !other.contains('.') {
        if other.len() > sha256@.len() {
            assert(other[sha256@.len() as int] == '.');
        }
        assert(other =~= sha256@.subrange(0, other.len() as int));
    }
}

/// A sidecar read gives the parsed document exactly where the service answered
/// and the document could be parsed; every failure keeps its words.
pub proof fn sidecar_read_reports_what_happened<D>(
    request: GetSidecar,
    reply: Result<Result<BlobMeta<D>, String>, S3Failure>,
    result: Result<BlobMeta<D>, MediaError>,
)
    requires
        call_ensures(GetSidecar::finish::<D>, (&request, reply), result),
    ensures
        result is Ok <==> reply matches Ok(Ok(_)),
        result matches Ok(meta) ==> (reply matches Ok(Ok(parsed)) && meta == parsed),
        result matches Err(error) ==> ((reply matches Err(failure) && error
            == MediaError::StorageError(failure.message)) || (reply matches Ok(Err(text)) && error
            == MediaError::StorageError(text))),
{
}

/// A MIME read gives the sidecar's MIME type exactly where the sidecar could be
/// read, and no two failures can be told apart by it.
pub proof fn mime_read_tells_only_what_a_sidecar_says<D>(
    request: ReadSidecarMime,
    meta: Result<BlobMeta<D>, MediaError>,
    mime: Option<String>,
    other_request: ReadSidecarMime,
    other_meta: Result<BlobMeta<D>, MediaError>,
    other_mime: Option<String>,
)
    requires
        call_ensures(ReadSidecarMime::finish::<D>, (&request, meta), mime),
        call_ensures(ReadSidecarMime::finish::<D>, (&other_request, other_meta), other_mime),
    ensures
        mime is Some <==> meta is Ok,
        mime matches Some(text) ==> (meta matches Ok(m) && text == m.mime_type),
        meta is Err && other_meta is Err ==> mime == other_mime,
{
}

/// Metadata that could not be encoded is never written, and the failure keeps
/// its words.
pub proof fn sidecar_is_written_only_if_encoded(
    storage: MediaStorage,
    ctx: TenantContext,
    sha256: &str,
    meta_json: Result<Vec<u8>, String>,
    request: Result<PutSidecar, MediaError>,
)
    requires
        call_ensures(MediaStorage::put_sidecar, (&storage, &ctx, sha256, meta_json), request),
    ensures
        request is Ok <==> meta_json is Ok,
        request matches Ok(write) ==> (meta_json matches Ok(document) && write.bytes@ == document@
            && write.content_type@ == "application/json"@),
        request matches Err(error) ==> (meta_json matches Err(text) && error
            == MediaError::StorageError(text)),
{
}

} // verus!
