use datasheet_cache::coordinator::{display_name, Action, Event, FileCache, Notice, Step};
use datasheet_cache::digest::compute_hash;
use datasheet_cache::record::{CachedFile, FILE_TTL_SECS};
use datasheet_cache::remote::{CacheError, RemoteStatus, ResponseField, UploadStep, UploadedFile};
use datasheet_cache::store::CacheData;

const BASE: &str = "https://generativelanguage.googleapis.com/v1beta";
const NOW: u64 = 1_750_000_000;

fn cache() -> FileCache {
    FileCache::new("KEY".to_string(), None, None, NOW).0
}

fn payload() -> Vec<u8> {
    (0..1000u32).map(|i| (i * 7 % 256) as u8).collect()
}

fn read(data: &[u8], now: u64) -> Event {
    Event::FileRead { data: data.to_vec(), file_name: Some("spec.pdf".to_string()), now }
}

fn started(url: &str) -> Event {
    Event::StartAnswered { status: 200, session_url: Some(url.to_string()), body: String::new() }
}

fn sent(name: &str, uri: &str, now: u64) -> Event {
    Event::SendAnswered {
        status: 200,
        file: Some(UploadedFile { name: Some(name.to_string()), uri: Some(uri.to_string()) }),
        body: String::new(),
        now,
    }
}

/// Runs a whole first upload and returns the finished record.
fn upload(cache: &mut FileCache, data: &[u8], now: u64, name: &str, uri: &str) -> CachedFile {
    let step = cache.step(read(data, now));
    assert!(matches!(step.action, Action::StartUpload { .. }));
    let step = cache.step(started("https://upload.test/session"));
    assert!(matches!(step.action, Action::SendBytes { .. }));
    match cache.step(sent(name, uri, now)).action {
        Action::Finish { record, persist } => {
            assert!(persist);
            record
        }
        other => panic!("unexpected action {other:?}"),
    }
}

#[test]
fn first_upload_creates_record_valid_for_two_days() {
    let mut c = cache();
    let data = payload();
    let step = c.step(read(&data, NOW));
    assert_eq!(step.notice, None);
    match step.action {
        Action::StartUpload { url, display_name, size } => {
            assert_eq!(url, "https://generativelanguage.googleapis.com/upload/v1beta/files?key=KEY");
            assert_eq!(display_name, "spec.pdf");
            assert_eq!(size, 1000);
        }
        other => panic!("unexpected action {other:?}"),
    }
    let step = c.step(started("https://upload.test/session/1"));
    match step.action {
        Action::SendBytes { url, size } => {
            assert_eq!(url, "https://upload.test/session/1");
            assert_eq!(size, 1000);
        }
        other => panic!("unexpected action {other:?}"),
    }
    let step: Step = c.step(sent("files/abc", "https://files.test/abc", NOW + 5));
    assert_eq!(step.notice, Some(Notice::Uploaded));
    match step.action {
        Action::Finish { record, persist } => {
            assert!(persist);
            assert_eq!(record.name, "files/abc");
            assert_eq!(record.uri, "https://files.test/abc");
            assert_eq!(record.expires_at, NOW + 5 + 48 * 3600);
            assert_eq!(record.file_size, 1000);
        }
        other => panic!("unexpected action {other:?}"),
    }
    let hash = compute_hash(&data);
    assert_eq!(c.data().get(&hash).unwrap().expires_at, NOW + 5 + FILE_TTL_SECS);
    assert!(matches!(c.data(), d if d.len() == 1));
}

#[test]
fn second_call_within_the_hour_hits_the_cache() {
    let mut c = cache();
    let data = payload();
    let first = upload(&mut c, &data, NOW, "files/abc", "https://files.test/abc");
    let step = c.step(read(&data, NOW + 1800));
    match step.action {
        Action::CheckActive { url } => {
            assert_eq!(url, format!("{BASE}/files/abc?key=KEY"));
        }
        other => panic!("unexpected action {other:?}"),
    }
    let step = c.step(Event::Checked(RemoteStatus::Active));
    assert_eq!(step.notice, Some(Notice::CacheHit));
    match step.action {
        Action::Finish { record, persist } => {
            assert!(!persist);
            assert_eq!(record, first);
        }
        other => panic!("unexpected action {other:?}"),
    }
}

#[test]
fn two_warm_calls_return_identical_records() {
    let mut c = cache();
    let data = payload();
    upload(&mut c, &data, NOW, "files/abc", "https://files.test/abc");
    let mut results = Vec::new();
    for later in [NOW + 60, NOW + 120] {
        let step = c.step(read(&data, later));
        assert!(matches!(step.action, Action::CheckActive { .. }));
        match c.step(Event::Checked(RemoteStatus::Active)).action {
            Action::Finish { record, persist } => {
                assert!(!persist);
                results.push(record);
            }
            other => panic!("unexpected action {other:?}"),
        }
    }
    assert_eq!(results[0], results[1]);
}

#[test]
fn gone_file_is_uploaded_again_with_a_new_id() {
    let mut c = cache();
    let data = payload();
    let stale = upload(&mut c, &data, NOW, "files/old", "https://files.test/old");
    let step = c.step(read(&data, NOW + 100));
    assert!(matches!(step.action, Action::CheckActive { .. }));
    let step = c.step(Event::Checked(RemoteStatus::Gone));
    assert_eq!(step.notice, Some(Notice::Gone));
    assert!(matches!(step.action, Action::StartUpload { .. }));
    c.step(started("https://upload.test/session/2"));
    let fresh = match c.step(sent("files/new", "https://files.test/new", NOW + 200)).action {
        Action::Finish { record, persist } => {
            assert!(persist);
            record
        }
        other => panic!("unexpected action {other:?}"),
    };
    assert_ne!(fresh.name, stale.name);
    assert_ne!(fresh.uri, stale.uri);
    let hash = compute_hash(&data);
    assert_eq!(c.data().get(&hash).unwrap().name, "files/new");
}

#[test]
fn unknown_status_fails_open_toward_upload() {
    let mut c = cache();
    let data = payload();
    upload(&mut c, &data, NOW, "files/abc", "https://files.test/abc");
    c.step(read(&data, NOW + 100));
    let step = c.step(Event::Checked(RemoteStatus::Unknown));
    assert_eq!(step.notice, Some(Notice::CheckFailed));
    assert!(matches!(step.action, Action::StartUpload { .. }));
}

#[test]
fn stale_record_is_uploaded_again_without_a_check() {
    let mut c = cache();
    let data = payload();
    upload(&mut c, &data, NOW, "files/abc", "https://files.test/abc");
    let step = c.step(read(&data, NOW + 47 * 3600));
    assert_eq!(step.notice, Some(Notice::Expired));
    assert!(matches!(step.action, Action::StartUpload { .. }));
}

#[test]
fn rejected_start_aborts_with_status_and_body() {
    let mut c = cache();
    c.step(read(&payload(), NOW));
    let step = c.step(Event::StartAnswered { status: 403, session_url: None, body: "denied".to_string() });
    match step.action {
        Action::Abort(CacheError::Rejected { step, status, body }) => {
            assert_eq!(step, UploadStep::Start);
            assert_eq!(status, 403);
            assert_eq!(body, "denied");
        }
        other => panic!("unexpected action {other:?}"),
    }
    assert!(matches!(c.step(Event::Checked(RemoteStatus::Active)).action, Action::Abort(CacheError::UnexpectedEvent)));
}

#[test]
fn start_without_session_url_is_a_protocol_error() {
    let mut c = cache();
    c.step(read(&payload(), NOW));
    let step = c.step(Event::StartAnswered { status: 200, session_url: None, body: String::new() });
    assert!(matches!(step.action, Action::Abort(CacheError::MissingField(ResponseField::SessionUrl))));
}

#[test]
fn transfer_answer_missing_fields_are_protocol_errors() {
    let cases = [
        (None, ResponseField::File),
        (Some(UploadedFile { name: None, uri: Some("u".to_string()) }), ResponseField::Name),
        (Some(UploadedFile { name: Some("n".to_string()), uri: None }), ResponseField::Uri),
    ];
    for (file, field) in cases {
        let mut c = cache();
        c.step(read(&payload(), NOW));
        c.step(started("https://upload.test/s"));
        let step = c.step(Event::SendAnswered { status: 200, file, body: String::new(), now: NOW });
        match step.action {
            Action::Abort(CacheError::MissingField(f)) => assert_eq!(f, field),
            other => panic!("unexpected action {other:?}"),
        }
        assert_eq!(c.data().len(), 0);
    }
}

#[test]
fn rejected_transfer_and_transport_failures_abort() {
    let mut c = cache();
    c.step(read(&payload(), NOW));
    c.step(started("https://upload.test/s"));
    let step = c.step(Event::SendAnswered { status: 500, file: None, body: "oops".to_string(), now: NOW });
    assert!(matches!(
        step.action,
        Action::Abort(CacheError::Rejected { step: UploadStep::Transfer, status: 500, .. })
    ));
    c.step(read(&payload(), NOW));
    let step = c.step(Event::Failed { message: "connection reset".to_string() });
    match step.action {
        Action::Abort(CacheError::Transport { step, message }) => {
            assert_eq!(step, UploadStep::Start);
            assert_eq!(message, "connection reset");
        }
        other => panic!("unexpected action {other:?}"),
    }
    // a failed attempt starts over from the beginning
    assert!(matches!(c.step(read(&payload(), NOW)).action, Action::StartUpload { .. }));
}

#[test]
fn missing_store_starts_empty_and_custom_base_url_is_used() {
    let (c, removed) = FileCache::new("K".to_string(), Some("https://proxy.test/v1".to_string()), None, NOW);
    assert_eq!(removed, 0);
    assert_eq!(c.data().len(), 0);
    let mut c = c;
    match c.step(Event::FileRead { data: vec![1, 2, 3], file_name: None, now: NOW }).action {
        Action::StartUpload { url, display_name, size } => {
            assert_eq!(url, "https://proxy.test/upload/v1beta/files?key=K");
            assert_eq!(display_name, "datasheet.pdf");
            assert_eq!(size, 3);
        }
        other => panic!("unexpected action {other:?}"),
    }
}

#[test]
fn opening_drops_stale_records_of_a_loaded_store() {
    let mut stored = CacheData::new();
    stored.put("old".to_string(), CachedFile {
        name: "files/old".to_string(),
        uri: "u".to_string(),
        expires_at: NOW - 10,
        file_size: 1,
    });
    stored.put("new".to_string(), CachedFile {
        name: "files/new".to_string(),
        uri: "u".to_string(),
        expires_at: NOW + 10 * 3600,
        file_size: 1,
    });
    stored.put("margin".to_string(), CachedFile {
        name: "files/margin".to_string(),
        uri: "u".to_string(),
        expires_at: NOW + 1800,
        file_size: 1,
    });
    let (mut c, removed) = FileCache::new("K".to_string(), None, Some(stored), NOW);
    assert_eq!(removed, 2);
    assert_eq!(c.data().len(), 1);
    assert!(c.data().get(&"new".to_string()).is_some());
    assert!(c.data().get(&"old".to_string()).is_none());
    assert!(c.data().get(&"margin".to_string()).is_none());
    assert_eq!(c.cleanup_expired(NOW), 0);
    assert_eq!(c.cleanup_expired(NOW + 10 * 3600), 1);
    assert_eq!(c.data().len(), 0);
}

#[test]
fn display_name_defaults_to_datasheet() {
    assert_eq!(display_name(Some("a.pdf".to_string())), "a.pdf");
    assert_eq!(display_name(None), "datasheet.pdf");
}

#[test]
fn idle_phase_after_finish() {
    let mut c = cache();
    let data = payload();
    upload(&mut c, &data, NOW, "files/abc", "https://files.test/abc");
    assert!(matches!(c.step(Event::Checked(RemoteStatus::Active)).action, Action::Abort(CacheError::UnexpectedEvent)));
}
