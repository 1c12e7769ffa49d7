//! The cache coordinator: a state machine that turns "get or upload this
//! payload" into status checks, the two-step upload, and store updates.
//!
//! The caller runs the machine. It hands in an [`Event`] (the payload was
//! read, a remote call was answered), performs the [`Action`] that comes
//! back, and feeds in the answer, until the action is `Finish` or `Abort`.

use vstd::prelude::*;

use crate::digest::{compute_hash, content_hash};
use crate::llm::{gemini_base_url, LlmProvider};
use crate::record::{expired_at, CachedFile, RecordView, FILE_TTL_SECS};
use crate::remote::{
    file_from_upload, file_status_url, file_status_url_of, session_from_start,
    start_answer_error, upload_answer_error, upload_answer_ok, upload_start_url,
    upload_start_url_of, is_success, CacheError, RemoteStatus, UploadStep, UploadedFile,
};
use crate::store::CacheData;
use crate::text::opt_view;

verus! {

/// What an attempt is waiting for.
#[derive(Debug)]
pub enum Phase {
    /// No attempt is under way.
    Idle,
    /// A fresh record was found; its remote status is being checked.
    Verifying { hash: String, record: CachedFile, size: u64, display_name: String },
    /// The upload session has been requested.
    Starting { hash: String, size: u64 },
    /// The bytes have been sent to the session.
    Sending { hash: String, size: u64 },
}

/// What the caller hands to the coordinator.
#[derive(Debug)]
pub enum Event {
    /// The payload was read from `file_name` at time `now`.
    FileRead { data: Vec<u8>, file_name: Option<String>, now: u64 },
    /// The status check was answered (or could not be made: `Unknown`).
    Checked(RemoteStatus),
    /// The start of the upload session was answered.
    StartAnswered { status: u16, session_url: Option<String>, body: String },
    /// The byte transfer was answered at time `now`.
    SendAnswered { status: u16, file: Option<UploadedFile>, body: String, now: u64 },
    /// The pending handshake request failed before an answer could be read.
    Failed { message: String },
}

/// What the coordinator asks the caller to do next.
#[derive(Debug)]
pub enum Action {
    /// Read the remote file's status at `url`, then hand in `Checked`.
    CheckActive { url: String },
    /// Start an upload session at `url` for a payload of `size` bytes.
    StartUpload { url: String, display_name: String, size: u64 },
    /// Send the payload to the session at `url`, upload and finalize.
    SendBytes { url: String, size: u64 },
    /// The attempt is over: hand `record` to the caller, after persisting
    /// the store when `persist` is set.
    Finish { record: CachedFile, persist: bool },
    /// The attempt failed.
    Abort(CacheError),
}

/// A progress notice for the informational channel.
#[derive(Debug, Clone, Copy, PartialEq, Eq, Structural)]
pub enum Notice {
    /// A checked record is used as it is.
    CacheHit,
    /// The stored record is stale; the payload is uploaded again.
    Expired,
    /// The service no longer has the file; the payload is uploaded again.
    Gone,
    /// The check did not settle the file's state; the payload is uploaded again.
    CheckFailed,
    /// The payload was uploaded and its record stored.
    Uploaded,
}

/// One move of the coordinator.
#[derive(Debug)]
pub struct Step {
    pub action: Action,
    pub notice: Option<Notice>,
}

/// The remote name given to a payload: its file name, or a default.
pub open spec fn display_name_of(file_name: Option<Seq<char>>) -> Seq<char> {
    match file_name {
        Some(n) => n,
        None => "datasheet.pdf"@,
    }
}

/// The remote name given to a payload read from `file_name`.
pub fn display_name(file_name: Option<String>) -> (r: String)
    ensures
        r@ == display_name_of(opt_view(file_name)),
{
    match file_name {
        Some(n) => n,
        None => "datasheet.pdf".to_owned(),
    }
}

/// Manages the cache of uploaded files.
#[derive(Debug)]
pub struct FileCache {
    data: CacheData,
    api_key: String,
    base_url: String,
    phase: Phase,
}

impl FileCache {
    /// The stored records.
    pub closed spec fn records(&self) -> Map<Seq<char>, RecordView> {
        self.data@
    }

    /// The attempt under way.
    pub closed spec fn phase(&self) -> Phase {
        self.phase
    }

    pub closed spec fn base_url(&self) -> Seq<char> {
        self.base_url@
    }

    pub closed spec fn api_key(&self) -> Seq<char> {
        self.api_key@
    }

    /// The records of a loaded store; a store that was missing or could not
    /// be read comes in as `None` and counts as empty.
    pub open spec fn loaded_records(stored: Option<CacheData>) -> Map<Seq<char>, RecordView> {
        match stored {
            Some(d) => d@,
            None => Map::<Seq<char>, RecordView>::empty(),
        }
    }

    /// A coordinator over the persisted store `stored`, opened at time `now`:
    /// the records that are stale at `now` are dropped. Also returns how many
    /// were dropped; the store is to be persisted when that is not zero.
    pub fn new(api_key: String, base_url: Option<String>, stored: Option<CacheData>, now: u64) -> (r: (
        FileCache,
        usize,
    ))
        ensures
            r.0.phase() is Idle,
            r.0.api_key() == api_key@,
            r.0.base_url() == match base_url {
                Some(b) => b@,
                None => gemini_base_url(),
            },
            r.0.records() == crate::store::unexpired(Self::loaded_records(stored), now),
            r.1 == Self::loaded_records(stored).len() - r.0.records().len(),
    {
        let base_url = match base_url {
            Some(b) => b,
            None => LlmProvider::Gemini.default_base_url().to_owned(),
        };
        let data = match stored {
            Some(d) => d,
            None => CacheData::new(),
        };
        let mut cache = FileCache { data, api_key, base_url, phase: Phase::Idle };
        let removed = cache.cleanup_expired(now);
        (cache, removed)
    }

    /// The store, for persisting.
    pub fn data(&self) -> (r: &CacheData)
        ensures
            r@ == self.records(),
    {
        &self.data
    }

    /// Removes the records that are stale at `now`; returns how many were
    /// removed (the store is to be persisted when that is not zero).
    pub fn cleanup_expired(&mut self, now: u64) -> (removed: usize)
        ensures
            final(self).records() == crate::store::unexpired(old(self).records(), now),
            removed == old(self).records().len() - final(self).records().len(),
            final(self).phase() == old(self).phase(),
            final(self).base_url() == old(self).base_url(),
            final(self).api_key() == old(self).api_key(),
    {
        self.data.sweep_expired(now)
    }
}

/// `post` and `out` start an upload session for the payload `hash`.
pub open spec fn begins_upload(
    pre: FileCache,
    post: FileCache,
    out: Step,
    hash: Seq<char>,
    size: u64,
    display_name: Seq<char>,
) -> bool {
    &&& post.records() == pre.records()
    &&& post.phase() matches Phase::Starting { hash: h, size: n } && h@ == hash && n == size
    &&& out.action matches Action::StartUpload { url, display_name: d, size: n } && url@ == upload_start_url_of(
        pre.base_url(),
        pre.api_key(),
    ) && d@ == display_name && n == size
}

/// `post` and `out` end the attempt with an error that satisfies `failure`.
pub open spec fn aborts(pre: FileCache, post: FileCache, out: Step, failure: spec_fn(CacheError) -> bool) -> bool {
    &&& post.records() == pre.records()
    &&& post.phase() is Idle
    &&& out.action matches Action::Abort(e) && failure(e)
    &&& out.notice is None
}

/// The coordinator's transitions: from the state `pre` and the event, to the
/// state `post` and the step `out`.
pub open spec fn transition(pre: FileCache, event: Event, post: FileCache, out: Step) -> bool {
    match pre.phase() {
        Phase::Idle => match event {
            Event::FileRead { data, file_name, now } => {
                let hash = content_hash(data@);
                let size = data@.len() as u64;
                let name = display_name_of(opt_view(file_name));
                if pre.records().contains_key(hash) && !expired_at(pre.records()[hash].expires_at, now) {
                    let rec = pre.records()[hash];
                    &&& post.records() == pre.records()
                    &&& post.phase() matches Phase::Verifying { hash: h, record, size: n, display_name: d }
                        && h@ == hash && record@ == rec && n == size && d@ == name
                    &&& out.action matches Action::CheckActive { url } && url@ == file_status_url_of(
                        pre.base_url(),
                        rec.name,
                        pre.api_key(),
                    )
                    &&& out.notice is None
                } else {
                    &&& begins_upload(pre, post, out, hash, size, name)
                    &&& out.notice == if pre.records().contains_key(hash) {
                        Some(Notice::Expired)
                    } else {
                        None
                    }
                }
            },
            _ => aborts(pre, post, out, |e: CacheError| e == CacheError::UnexpectedEvent),
        },
        Phase::Verifying { hash, record, size, display_name } => match event {
            Event::Checked(status) => if status == RemoteStatus::Active {
                &&& post.records() == pre.records()
                &&& post.phase() is Idle
                &&& out.action matches Action::Finish { record: r, persist } && r@ == record@ && !persist
                &&& out.notice == Some(Notice::CacheHit)
            } else {
                &&& begins_upload(pre, post, out, hash@, size, display_name@)
                &&& out.notice == if status == RemoteStatus::Gone {
                    Some(Notice::Gone)
                } else {
                    Some(Notice::CheckFailed)
                }
            },
            _ => aborts(pre, post, out, |e: CacheError| e == CacheError::UnexpectedEvent),
        },
        Phase::Starting { hash, size } => match event {
            Event::StartAnswered { status, session_url, body } => if is_success(status)
                && session_url is Some {
                &&& post.records() == pre.records()
                &&& post.phase() matches Phase::Sending { hash: h, size: n } && h@ == hash@ && n == size
                &&& out.action matches Action::SendBytes { url, size: n } && opt_view(session_url) == Some(url@)
                    && n == size
                &&& out.notice is None
            } else {
                aborts(
                    pre,
                    post,
                    out,
                    |e: CacheError| start_answer_error(status, opt_view(session_url), body@, e),
                )
            },
            Event::Failed { message } => aborts(
                pre,
                post,
                out,
                |e: CacheError|
                    e matches CacheError::Transport { step, message: m } && step == UploadStep::Start && m@
                        == message@,
            ),
            _ => aborts(pre, post, out, |e: CacheError| e == CacheError::UnexpectedEvent),
        },
        Phase::Sending { hash, size } => match event {
            Event::SendAnswered { status, file, body, now } => if upload_answer_ok(status, file) {
                let f = file->0;
                let rec = RecordView {
                    name: f.name->0@,
                    uri: f.uri->0@,
                    expires_at: (now + FILE_TTL_SECS) as u64,
                    file_size: size,
                };
                &&& post.records() == pre.records().insert(hash@, rec)
                &&& post.phase() is Idle
                &&& out.action matches Action::Finish { record, persist } && record@ == rec && persist
                &&& out.notice == Some(Notice::Uploaded)
            } else {
                aborts(pre, post, out, |e: CacheError| upload_answer_error(status, file, body@, e))
            },
            Event::Failed { message } => aborts(
                pre,
                post,
                out,
                |e: CacheError|
                    e matches CacheError::Transport { step, message: m } && step == UploadStep::Transfer
                        && m@ == message@,
            ),
            _ => aborts(pre, post, out, |e: CacheError| e == CacheError::UnexpectedEvent),
        },
    }
}

/// The time of a transfer answer leaves room for the expiry time.
pub open spec fn event_time_fits(event: Event) -> bool {
    event matches Event::SendAnswered { now, .. } ==> now + FILE_TTL_SECS <= u64::MAX
}

impl FileCache {
    fn begin_upload(&mut self, hash: String, size: u64, display_name: String, notice: Option<Notice>) -> (r: Step)
        ensures
            begins_upload(*old(self), *final(self), r, hash@, size, display_name@),
            r.notice == notice,
            final(self).base_url() == old(self).base_url(),
            final(self).api_key() == old(self).api_key(),
    {
        let url = upload_start_url(self.base_url.as_str(), self.api_key.as_str());
        self.phase = Phase::Starting { hash, size };
        Step { action: Action::StartUpload { url, display_name, size }, notice }
    }

    fn abort(&mut self, error: CacheError) -> (r: Step)
        ensures
            final(self).records() == old(self).records(),
            final(self).phase() is Idle,
            r.action matches Action::Abort(e) && e == error,
            r.notice is None,
            final(self).base_url() == old(self).base_url(),
            final(self).api_key() == old(self).api_key(),
    {
        self.phase = Phase::Idle;
        Step { action: Action::Abort(error), notice: None }
    }

    /// Takes one event and returns what to do next (see [`transition`]).
    pub fn step(&mut self, event: Event) -> (r: Step)
        requires
            event_time_fits(event),
        ensures
            transition(*old(self), event, *final(self), r),
            final(self).base_url() == old(self).base_url(),
            final(self).api_key() == old(self).api_key(),
    {
        let mut phase = Phase::Idle;
        std::mem::swap(&mut self.phase, &mut phase);
        match phase {
            Phase::Idle => match event {
                Event::FileRead { data, file_name, now } => {
                    let hash = compute_hash(data.as_slice());
                    let size = data.len() as u64;
                    let name = display_name(file_name);
                    let (fresh, known) = match self.data.get(&hash) {
                        Some(rec) => if rec.is_expired_at(now) {
                            (None, true)
                        } else {
                            (Some(rec.clone()), true)
                        },
                        None => (None, false),
                    };
                    match fresh {
                        Some(record) => {
                            let url = file_status_url(
                                self.base_url.as_str(),
                                record.name.as_str(),
                                self.api_key.as_str(),
                            );
                            self.phase = Phase::Verifying { hash, record, size, display_name: name };
                            Step { action: Action::CheckActive { url }, notice: None }
                        },
                        None => {
                            let notice = if known {
                                Some(Notice::Expired)
                            } else {
                                None
                            };
                            self.begin_upload(hash, size, name, notice)
                        },
                    }
                },
                _ => self.abort(CacheError::UnexpectedEvent),
            },
            Phase::Verifying { hash, record, size, display_name } => match event {
                Event::Checked(status) => match status {
                    RemoteStatus::Active => Step {
                        action: Action::Finish { record, persist: false },
                        notice: Some(Notice::CacheHit),
                    },
                    RemoteStatus::Gone => self.begin_upload(hash, size, display_name, Some(Notice::Gone)),
                    RemoteStatus::Unknown => self.begin_upload(
                        hash,
                        size,
                        display_name,
                        Some(Notice::CheckFailed),
                    ),
                },
                _ => self.abort(CacheError::UnexpectedEvent),
            },
            Phase::Starting { hash, size } => match event {
                Event::StartAnswered { status, session_url, body } => match session_from_start(
                    status,
                    session_url,
                    body,
                ) {
                    Ok(url) => {
                        self.phase = Phase::Sending { hash, size };
                        Step { action: Action::SendBytes { url, size }, notice: None }
                    },
                    Err(e) => self.abort(e),
                },
                Event::Failed { message } => self.abort(
                    CacheError::Transport { step: UploadStep::Start, message },
                ),
                _ => self.abort(CacheError::UnexpectedEvent),
            },
            Phase::Sending { hash, size } => match event {
                Event::SendAnswered { status, file, body, now } => match file_from_upload(status, file, body) {
                    Ok((name, uri)) => {
                        let record = CachedFile { name, uri, expires_at: now + FILE_TTL_SECS, file_size: size };
                        self.data.put(hash, record.clone());
                        Step { action: Action::Finish { record, persist: true }, notice: Some(Notice::Uploaded) }
                    },
                    Err(e) => self.abort(e),
                },
                Event::Failed { message } => self.abort(
                    CacheError::Transport { step: UploadStep::Transfer, message },
                ),
                _ => self.abort(CacheError::UnexpectedEvent),
            },
        }
    }
}

/// On a warm cache whose record the service confirms as active, a call for
/// unchanged content makes exactly one status check and no upload, returns
/// the stored record and leaves the store as it was. Two such calls in a row
/// therefore return identical records.
pub proof fn lemma_warm_cache_idempotent(
    s0: FileCache,
    data: Vec<u8>,
    file_name: Option<String>,
    now1: u64,
    now2: u64,
    s1: FileCache,
    o1: Step,
    s2: FileCache,
    o2: Step,
    s3: FileCache,
    o3: Step,
    s4: FileCache,
    o4: Step,
)
    requires
        s0.phase() is Idle,
        s0.records().contains_key(content_hash(data@)),
        !expired_at(s0.records()[content_hash(data@)].expires_at, now1),
        !expired_at(s0.records()[content_hash(data@)].expires_at, now2),
        transition(s0, Event::FileRead { data, file_name, now: now1 }, s1, o1),
        transition(s1, Event::Checked(RemoteStatus::Active), s2, o2),
        transition(s2, Event::FileRead { data, file_name, now: now2 }, s3, o3),
        transition(s3, Event::Checked(RemoteStatus::Active), s4, o4),
    ensures
        o1.action is CheckActive,
        o3.action is CheckActive,
        o2.action matches Action::Finish { record, persist } && record@ == s0.records()[content_hash(data@)]
            && !persist,
        o4.action matches Action::Finish { record, persist } && record@ == s0.records()[content_hash(data@)]
            && !persist,
        s4.records() == s0.records(),
        s4.phase() is Idle,
{
}

/// When the status check of a fresh record reports the file gone, the
/// record is not handed out: the coordinator starts a new upload of the
/// payload at once.
pub proof fn lemma_gone_starts_upload(
    s0: FileCache,
    data: Vec<u8>,
    file_name: Option<String>,
    now: u64,
    s1: FileCache,
    o1: Step,
    s2: FileCache,
    o2: Step,
)
    requires
        s0.phase() is Idle,
        s0.records().contains_key(content_hash(data@)),
        !expired_at(s0.records()[content_hash(data@)].expires_at, now),
        transition(s0, Event::FileRead { data, file_name, now }, s1, o1),
        transition(s1, Event::Checked(RemoteStatus::Gone), s2, o2),
    ensures
        o1.action is CheckActive,
        o2.action matches Action::StartUpload { size, display_name, .. } && size == data@.len() as u64
            && display_name@ == display_name_of(opt_view(file_name)),
        o2.notice == Some(Notice::Gone),
        s2.phase() matches Phase::Starting { hash, size } && hash@ == content_hash(data@),
        s2.records() == s0.records(),
{
}

/// A store opened at `now` holds no record that is stale at `now`, and keeps
/// every record that is not.
pub proof fn lemma_opened_store_is_fresh(stored: Option<CacheData>, now: u64, c: FileCache)
    requires
        c.records() == crate::store::unexpired(FileCache::loaded_records(stored), now),
    ensures
        forall|k: Seq<char>| #[trigger] c.records().contains_key(k) ==> !expired_at(c.records()[k].expires_at, now),
        forall|k: Seq<char>|
            #[trigger] FileCache::loaded_records(stored).contains_key(k) && !expired_at(
                FileCache::loaded_records(stored)[k].expires_at,
                now,
            ) ==> c.records().contains_key(k),
{
}

/// When the status check reports the file gone, the next steps upload the
/// payload again, and the record stored for it is the one the service
/// answered with: where the service gave a new remote name, the stored
/// name differs from the stale one.
pub proof fn lemma_gone_forces_upload(
    s0: FileCache,
    data: Vec<u8>,
    file_name: Option<String>,
    now: u64,
    session_url: String,
    start_body: String,
    name: String,
    uri: String,
    transfer_body: String,
    later: u64,
    s1: FileCache,
    o1: Step,
    s2: FileCache,
    o2: Step,
    s3: FileCache,
    o3: Step,
    s4: FileCache,
    o4: Step,
)
    requires
        s0.phase() is Idle,
        s0.records().contains_key(content_hash(data@)),
        !expired_at(s0.records()[content_hash(data@)].expires_at, now),
        later + FILE_TTL_SECS <= u64::MAX,
        transition(s0, Event::FileRead { data, file_name, now }, s1, o1),
        transition(s1, Event::Checked(RemoteStatus::Gone), s2, o2),
        transition(s2, Event::StartAnswered { status: 200, session_url: Some(session_url), body: start_body }, s3, o3),
        transition(
            s3,
            Event::SendAnswered {
                status: 200,
                file: Some(UploadedFile { name: Some(name), uri: Some(uri) }),
                body: transfer_body,
                now: later,
            },
            s4,
            o4,
        ),
    ensures
        o1.action is CheckActive,
        o2.action is StartUpload,
        o2.notice == Some(Notice::Gone),
        o3.action is SendBytes,
        o4.action matches Action::Finish { record, persist } && record@.name == name@ && record@.uri == uri@
            && persist,
        s4.records().contains_key(content_hash(data@)),
        s4.records()[content_hash(data@)].name == name@,
        s4.records()[content_hash(data@)].uri == uri@,
        s4.records()[content_hash(data@)].expires_at == later + FILE_TTL_SECS,
        name@ != s0.records()[content_hash(data@)].name ==> s4.records()[content_hash(data@)].name
            != s0.records()[content_hash(data@)].name,
{
}

} // verus!
