# buzz_media

Object storage for media blobs behind an S3-compatible service, with its
decisions verified by Verus.

- `src/` is the verified library. `storage` selects credentials and builds the
  client. `operations`, `sidecar` and `bucket_index` hold the operations: each
  is a value that says which request to send and that turns the service's reply
  into the caller's result. `stream` decides how long a download's tracing span
  lives. `sidecar` also states and proves that a community sees its own metadata
  sidecars and no other's.
- `client`, `error` and `tenant` declare what the library relies on about
  `rust-s3` and `uuid`.
- `app/` sends the requests: the async client, JSON and tracing.
- `tests/` runs the library with the real crates linked.
