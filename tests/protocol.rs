use datasheet_cache::remote::{
    check_status, file_from_upload, file_status_url, session_from_start, upload_start_url,
    CacheError, RemoteStatus, ResponseField, UploadStep, UploadedFile,
};

#[test]
fn status_check_is_tri_state() {
    assert_eq!(check_status(200, Some("ACTIVE".to_string())), RemoteStatus::Active);
    assert_eq!(check_status(200, Some("PROCESSING".to_string())), RemoteStatus::Unknown);
    assert_eq!(check_status(200, None), RemoteStatus::Unknown);
    assert_eq!(check_status(404, None), RemoteStatus::Gone);
    assert_eq!(check_status(404, Some("ACTIVE".to_string())), RemoteStatus::Gone);
    assert_eq!(check_status(500, Some("ACTIVE".to_string())), RemoteStatus::Unknown);
    assert_eq!(check_status(403, None), RemoteStatus::Unknown);
}

#[test]
fn upload_url_drops_the_api_version() {
    assert_eq!(
        upload_start_url("https://generativelanguage.googleapis.com/v1beta", "K"),
        "https://generativelanguage.googleapis.com/upload/v1beta/files?key=K"
    );
    assert_eq!(upload_start_url("https://h.test/v1", "K"), "https://h.test/upload/v1beta/files?key=K");
    assert_eq!(upload_start_url("https://h.test", "K"), "https://h.test/upload/v1beta/files?key=K");
    assert_eq!(upload_start_url("", "K"), "/upload/v1beta/files?key=K");
}

#[test]
fn status_url_names_the_file() {
    assert_eq!(
        file_status_url("https://h.test/v1beta", "files/abc", "K"),
        "https://h.test/v1beta/files/abc?key=K"
    );
}

#[test]
fn start_answer_outcomes() {
    assert_eq!(session_from_start(200, Some("https://s".to_string()), String::new()).unwrap(), "https://s");
    match session_from_start(401, Some("https://s".to_string()), "no".to_string()) {
        Err(CacheError::Rejected { step, status, body }) => {
            assert_eq!(step, UploadStep::Start);
            assert_eq!(status, 401);
            assert_eq!(body, "no");
        }
        other => panic!("unexpected {other:?}"),
    }
    assert!(matches!(
        session_from_start(204, None, String::new()),
        Err(CacheError::MissingField(ResponseField::SessionUrl))
    ));
}

#[test]
fn transfer_answer_outcomes() {
    let file = |n: Option<&str>, u: Option<&str>| UploadedFile {
        name: n.map(|s| s.to_string()),
        uri: u.map(|s| s.to_string()),
    };
    assert_eq!(
        file_from_upload(200, Some(file(Some("files/x"), Some("https://u/x"))), String::new()).unwrap(),
        ("files/x".to_string(), "https://u/x".to_string())
    );
    assert!(matches!(
        file_from_upload(200, None, String::new()),
        Err(CacheError::MissingField(ResponseField::File))
    ));
    assert!(matches!(
        file_from_upload(200, Some(file(None, Some("u"))), String::new()),
        Err(CacheError::MissingField(ResponseField::Name))
    ));
    assert!(matches!(
        file_from_upload(200, Some(file(Some("n"), None)), String::new()),
        Err(CacheError::MissingField(ResponseField::Uri))
    ));
    assert!(matches!(
        file_from_upload(413, Some(file(Some("n"), Some("u"))), "big".to_string()),
        Err(CacheError::Rejected { step: UploadStep::Transfer, status: 413, .. })
    ));
}
