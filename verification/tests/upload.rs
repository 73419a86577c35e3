use fileshare::digest::md5_hex;
use fileshare::upload::{UploadAction, UploadEvent, UploadFlow, UploadState};

fn field(name: &str) -> UploadEvent {
    UploadEvent::Field { name: Some(name.to_string()) }
}

fn step(flow: &mut UploadFlow, event: UploadEvent) -> UploadAction {
    assert!(flow.accepts(&event));
    flow.step(event)
}

fn expect_reject(action: UploadAction, status: u16, message: &str) {
    match action {
        UploadAction::Reject(r) => {
            assert_eq!(r.status, status);
            assert_eq!(r.message, message);
        },
        other => panic!("expected a rejection, got {:?}", other),
    }
}

/// Runs a full upload with the given expiry query and returns the hash and record.
fn upload_file(query: &str, token_first: bool) -> (String, UploadAction) {
    let mut flow = UploadFlow::new(query.to_string());
    if token_first {
        assert!(matches!(step(&mut flow, field("access_token")), UploadAction::ReadToken));
        let a = step(
            &mut flow,
            UploadEvent::Token { token: "secret".to_string(), expected: "secret".to_string() },
        );
        assert!(matches!(a, UploadAction::NextField));
    }
    let hash = match step(&mut flow, field("file")) {
        UploadAction::ReadFile { hash } => hash,
        other => panic!("expected to read the file, got {:?}", other),
    };
    let record = step(
        &mut flow,
        UploadEvent::FileRead {
            file_name: "a.txt".to_string(),
            content_type: "text/plain".to_string(),
            content: b"abc".to_vec(),
        },
    );
    (hash, record)
}

#[test]
fn upload_without_fields() {
    let mut flow = UploadFlow::new("7d".to_string());
    expect_reject(step(&mut flow, UploadEvent::NoMoreFields), 400, "No file provided");
    assert!(!flow.accepts(&UploadEvent::NoMoreFields));
}

#[test]
fn upload_with_wrong_token() {
    let mut flow = UploadFlow::new("7d".to_string());
    assert!(matches!(step(&mut flow, field("access_token")), UploadAction::ReadToken));
    let a = step(
        &mut flow,
        UploadEvent::Token { token: "guess".to_string(), expected: "secret".to_string() },
    );
    expect_reject(a, 401, "Invalid or expired access token");
    assert!(!flow.accepts(&field("file")));
}

#[test]
fn upload_stores_and_redirects() {
    let mut flow = UploadFlow::new("7d".to_string());
    assert!(matches!(step(&mut flow, field("access_token")), UploadAction::ReadToken));
    assert!(matches!(
        step(&mut flow, UploadEvent::Token { token: "s".to_string(), expected: "s".to_string() }),
        UploadAction::NextField
    ));
    let hash = match step(&mut flow, field("file")) {
        UploadAction::ReadFile { hash } => hash,
        other => panic!("unexpected {:?}", other),
    };
    assert_eq!(hash.len(), 15);
    assert!(hash.chars().all(|c| c.is_ascii_alphabetic()));
    let a = step(
        &mut flow,
        UploadEvent::FileRead {
            file_name: "a.txt".to_string(),
            content_type: "text/plain".to_string(),
            content: b"abc".to_vec(),
        },
    );
    match a {
        UploadAction::Store { record: r, contents } => {
            assert_eq!(contents, b"abc".to_vec());
            assert_eq!(r.hash, hash);
            assert_eq!(r.name, "a.txt");
            assert_eq!(r.content_type, "text/plain");
            assert_eq!(r.md5, "900150983cd24fb0d6963f7d28e17f72");
            assert_eq!(r.size, 3);
            assert_eq!(r.expires_in.num_seconds(), 7 * 86400);
        },
        other => panic!("unexpected {:?}", other),
    }
    match step(&mut flow, UploadEvent::Stored { ok: true }) {
        UploadAction::Redirect(url) => assert_eq!(url, format!("https://fs.jakub.app/file/{}", hash)),
        other => panic!("unexpected {:?}", other),
    }
    assert!(matches!(flow_state_is_finished(&flow), true));
}

fn flow_state_is_finished(flow: &UploadFlow) -> bool {
    !flow.accepts(&UploadEvent::NoMoreFields)
        && !flow.accepts(&UploadEvent::Stored { ok: true })
}

#[test]
fn upload_without_token_field_is_stored() {
    let (hash, record) = upload_file("1h", false);
    match record {
        UploadAction::Store { record: r, contents } => {
            assert_eq!(r.md5, md5_hex(&contents));
            assert_eq!(r.size as usize, contents.len());
            assert_eq!(r.hash, hash);
            assert_eq!(r.expires_in.num_seconds(), 3600);
            assert_eq!(r.md5, md5_hex(b"abc"));
        },
        other => panic!("unexpected {:?}", other),
    }
}

#[test]
fn upload_store_failure() {
    let mut flow = UploadFlow::new("30d".to_string());
    assert!(matches!(step(&mut flow, field("file")), UploadAction::ReadFile { .. }));
    assert!(matches!(
        step(
            &mut flow,
            UploadEvent::FileRead {
                file_name: "b".to_string(),
                content_type: "x/y".to_string(),
                content: vec![],
            }
        ),
        UploadAction::Store { .. }
    ));
    expect_reject(step(&mut flow, UploadEvent::Stored { ok: false }), 500, "Could not save file");
}

#[test]
fn upload_expiry_too_long() {
    let mut flow = UploadFlow::new("31d".to_string());
    expect_reject(
        step(&mut flow, field("file")),
        400,
        "File expiration time cannot be longer than 30 days",
    );
    let mut flow = UploadFlow::new("721h".to_string());
    expect_reject(
        step(&mut flow, field("file")),
        400,
        "File expiration time cannot be longer than 30 days",
    );
    let mut flow = UploadFlow::new("720h".to_string());
    assert!(matches!(step(&mut flow, field("file")), UploadAction::ReadFile { .. }));
}

#[test]
fn upload_negative_expiry_is_accepted() {
    let mut flow = UploadFlow::new("-5h".to_string());
    assert!(matches!(step(&mut flow, field("file")), UploadAction::ReadFile { .. }));
}

#[test]
fn upload_unreadable_expiry_aborts() {
    for query in ["abc", "7x", "", "99999999999999999999d", "106751991167301d"] {
        let mut flow = UploadFlow::new(query.to_string());
        assert!(matches!(step(&mut flow, field("file")), UploadAction::Abort(_)), "query {:?}", query);
    }
}

#[test]
fn upload_unreadable_expiry_does_not_matter_for_token() {
    let mut flow = UploadFlow::new("abc".to_string());
    assert!(matches!(step(&mut flow, field("access_token")), UploadAction::ReadToken));
    let a = step(
        &mut flow,
        UploadEvent::Token { token: "a".to_string(), expected: "b".to_string() },
    );
    expect_reject(a, 401, "Invalid or expired access token");
}

#[test]
fn upload_field_without_name_is_the_file() {
    let mut flow = UploadFlow::new("7d".to_string());
    let a = step(&mut flow, UploadEvent::Field { name: None });
    assert!(matches!(a, UploadAction::ReadFile { .. }));
    let _ = UploadState::Finished;
}
