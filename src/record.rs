//! A cache record: what the remote store answered for one uploaded payload,
//! and when it stops being trusted.

use vstd::prelude::*;

verus! {

/// How long the remote store keeps an uploaded file: 48 hours.
pub const FILE_TTL_SECS: u64 = 48 * 60 * 60;

/// A record is not trusted during the last hour before it expires.
pub const EXPIRY_MARGIN_SECS: u64 = 60 * 60;

/// A record is stale at `now` once `now + margin` reaches its expiry time.
pub open spec fn expired_at(expires_at: u64, now: u64) -> bool {
    now + EXPIRY_MARGIN_SECS >= expires_at
}

/// The mathematical content of a [`CachedFile`].
pub struct RecordView {
    pub name: Seq<char>,
    pub uri: Seq<char>,
    pub expires_at: u64,
    pub file_size: u64,
}

/// A file held by the remote store.
#[derive(Debug, PartialEq, Eq)]
pub struct CachedFile {
    /// The remote handle (for example `files/abc123`).
    pub name: String,
    /// The reference that later requests embed.
    pub uri: String,
    /// Epoch seconds at which the remote store drops the file.
    pub expires_at: u64,
    /// Size of the uploaded payload in bytes.
    pub file_size: u64,
}

impl View for CachedFile {
    type V = RecordView;

    open spec fn view(&self) -> RecordView {
        RecordView { name: self.name@, uri: self.uri@, expires_at: self.expires_at, file_size: self.file_size }
    }
}

impl Clone for CachedFile {
    fn clone(&self) -> (r: Self)
        ensures
            r@ == self@,
    {
        CachedFile {
            name: self.name.clone(),
            uri: self.uri.clone(),
            expires_at: self.expires_at,
            file_size: self.file_size,
        }
    }
}

/// Relies on `SystemTime::now` and `duration_since(UNIX_EPOCH)`: whole
/// seconds since the epoch, or 0 when the clock reads earlier than that.
/// Nothing is promised of the value.
#[verifier::external_body]
fn unix_now() -> (r: u64) {
    std::time::SystemTime::now().duration_since(std::time::UNIX_EPOCH).unwrap_or_default().as_secs()
}

impl CachedFile {
    /// Whether the record is stale at the given time (see [`expired_at`]).
    pub fn is_expired_at(&self, now: u64) -> (r: bool)
        ensures
            r == expired_at(self.expires_at, now),
    {
        if self.expires_at <= EXPIRY_MARGIN_SECS {
            true
        } else {
            now >= self.expires_at - EXPIRY_MARGIN_SECS
        }
    }

    /// Whether the record is stale now, by the system clock. Whatever the
    /// clock reads, a record that expires within the first margin after the
    /// epoch is stale.
    pub fn is_expired(&self) -> (r: bool)
        ensures
            self.expires_at <= EXPIRY_MARGIN_SECS ==> r,
    {
        let now = unix_now();
        self.is_expired_at(now)
    }
}

/// The expiry boundary: two hours ahead is trusted, half an hour ahead is
/// within the margin and stale, and a time already passed is stale.
pub proof fn lemma_expiry_boundary(now: u64)
    ensures
        now + 2 * 3600 <= u64::MAX ==> !expired_at((now + 2 * 3600) as u64, now),
        now + 30 * 60 <= u64::MAX ==> expired_at((now + 30 * 60) as u64, now),
        now >= 1 ==> expired_at((now - 1) as u64, now),
        expired_at(now, now),
{
}

} // verus!
