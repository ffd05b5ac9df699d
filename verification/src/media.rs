//! Encrypted media blobs: their storage locations and the upload rules.
use vstd::prelude::*;
use crate::ids::{is_version4, new_uuid_v4, uuid_text, uuid_text_injective, uuid_to_string};
use crate::text::join_texts;

verus! {

/// The largest media blob accepted, in bytes (50 MiB).
pub const MAX_MEDIA_BYTES: usize = 52_428_800;

/// How often expired media is purged, in seconds.
pub const CLEANUP_INTERVAL_SECS: u64 = 3600;

/// How long media is kept, in seconds (thirty days).
pub const MEDIA_RETENTION_SECS: u64 = 2592000;

/// The hourly purge of expired media.
#[derive(Debug)]
pub struct CleanupJob;

/// The object store that holds encrypted media.
#[derive(Debug, Clone)]
pub struct MediaStorage {
    pub endpoint: String,
    pub bucket: String,
    pub access_key: String,
    pub secret_key: String,
}

/// The location of an object: `{endpoint}/{bucket}/{key}`.
pub open spec fn object_url_text(endpoint: Seq<char>, bucket: Seq<char>, key: Seq<char>) -> Seq<char> {
    endpoint + "/"@ + bucket + "/"@ + key
}

impl MediaStorage {
    /// A store client.
    pub fn new(endpoint: String, bucket: String, access_key: String, secret_key: String) -> (s: MediaStorage)
        ensures
            s.endpoint == endpoint,
            s.bucket == bucket,
            s.access_key == access_key,
            s.secret_key == secret_key,
    {
        MediaStorage { endpoint, bucket, access_key, secret_key }
    }

    /// The location of the object stored under `key`.
    pub fn object_url(&self, key: &str) -> (url: String)
        ensures
            url@ == object_url_text(self.endpoint@, self.bucket@, key@),
    {
        let a = join_texts(self.endpoint.as_str(), "/");
        let b = join_texts(a.as_str(), self.bucket.as_str());
        let c = join_texts(b.as_str(), "/");
        let url = join_texts(c.as_str(), key);
        proof {
            assert(url@ =~= object_url_text(self.endpoint@, self.bucket@, key@));
        }
        url
    }
}

/// Whether the object store answered with success (a 2xx status).
pub fn store_succeeded(status: u16) -> (res: bool)
    ensures
        res == (200 <= status <= 299),
{
    200 <= status && status <= 299
}

/// Why an upload was refused.
#[derive(Debug)]
pub enum MediaError {
    TooLarge,
}

impl MediaError {
    /// The error's message.
    pub fn message(&self) -> (m: String)
        ensures
            m@ == "Media exceeds maximum size of 50MB"@,
    {
        String::from_str("Media exceeds maximum size of 50MB")
    }
}

/// Handles uploads of encrypted media.
#[derive(Debug)]
pub struct UploadHandler;

impl UploadHandler {
    /// Accepts an uploaded blob under a fresh media identifier, returned as
    /// text; a blob over the size limit is refused.
    pub fn handle_upload(&self, account_id: u128, data: &[u8], media_type: u8) -> (res: Result<String, MediaError>)
        ensures
            data@.len() > MAX_MEDIA_BYTES ==> res is Err,
            data@.len() <= MAX_MEDIA_BYTES ==> (res matches Ok(id) && exists|m: u128| id@ == #[trigger] uuid_text(m)),
            res matches Ok(id) ==> exists|m: u128| id@ == #[trigger] uuid_text(m) && is_version4(m),
    {
        let media_id = new_uuid_v4();
        if data.len() > MAX_MEDIA_BYTES {
            return Err(MediaError::TooLarge);
        }
        Ok(uuid_to_string(media_id))
    }
}

/// A media identifier is the text of a fresh random identifier: the text of
/// a version 4 UUID names that one identifier only, and is never the text
/// of the nil UUID nor of any identifier that is not version 4.
pub proof fn media_id_names_one_version4_identifier(m: u128, other: u128)
    requires
        is_version4(m),
        uuid_text(other) == uuid_text(m),
    ensures
        other == m,
        is_version4(other),
        other != 0,
{
    uuid_text_injective(other, m);
    assert(0u128 & 0xF000_8000_0000_0000_0000u128 == 0) by (bit_vector);
}

} // verus!
