use fileshare::error::AppError;
use fileshare::file::{file_details, file_page, File};
use fileshare::handler::{
    download_headers, download_open_failed, download_target, health, validate_access_token,
    UploadQuery,
};
use fileshare::misc::{expired_file_action, row_to_mark, CleanupAction, CLEANER_INTERVAL_SECS};
use fileshare::model::FileModel;

fn sample_file() -> File {
    File {
        id: 1,
        hash: Some("AbCdEfGhIjKlMnO".to_string()),
        name: Some("report.pdf".to_string()),
        md5: Some("d41d8cd98f00b204e9800998ecf8427e".to_string()),
        content_type: Some("application/pdf".to_string()),
        size: Some(1234),
        expires_at: Some(1_700_000_000_000_000),
        deleted_at: None,
        created_at: Some(1_699_000_000_000_000),
    }
}

fn empty_file() -> File {
    File {
        id: 2,
        hash: None,
        name: None,
        md5: None,
        content_type: None,
        size: None,
        expires_at: None,
        deleted_at: None,
        created_at: None,
    }
}

#[test]
fn health_reports_success() {
    let h = health();
    assert_eq!(h.status, "success");
    assert_eq!(h.message, "ok");
}

#[test]
fn upload_query_defaults_to_seven_days() {
    assert_eq!(UploadQuery::default().expires_in, "7d");
}

#[test]
fn access_token_checked() {
    assert_eq!(validate_access_token("secret".to_string(), "secret".to_string()), Ok(()));
    assert_eq!(
        validate_access_token("guess".to_string(), "secret".to_string()),
        Err("Invalid or expired access token".to_string())
    );
    assert!(validate_access_token(String::new(), "secret".to_string()).is_err());
}

#[test]
fn file_page_shows_fields() {
    let d = file_details(&sample_file());
    assert_eq!(d.hash, "AbCdEfGhIjKlMnO");
    assert_eq!(d.name, "report.pdf");
    assert_eq!(d.md5, "d41d8cd98f00b204e9800998ecf8427e");
    assert_eq!(d.size, 1234);
    assert_eq!(d.download_href, "/api/download/AbCdEfGhIjKlMnO");
}

#[test]
fn file_page_defaults_missing_fields() {
    let d = file_details(&empty_file());
    assert_eq!(d.hash, "");
    assert_eq!(d.name, "");
    assert_eq!(d.md5, "");
    assert_eq!(d.size, 0);
    assert_eq!(d.download_href, "/api/download/");
}

#[test]
fn file_page_not_found() {
    let e = file_page(None).unwrap_err();
    assert_eq!(e.status, 404);
    assert_eq!(e.message, "File not found");
    assert!(file_page(Some(sample_file())).is_ok());
}

#[test]
fn download_of_found_file() {
    let f = sample_file();
    assert_eq!(download_target(&Some(f.clone())).unwrap(), "AbCdEfGhIjKlMnO");
    let h = download_headers(&f);
    assert_eq!(h.content_type, "application/pdf; charset=utf-8");
    assert_eq!(h.content_disposition, "attachment; filename=\"report.pdf\"");
}

#[test]
fn download_of_missing_file() {
    let e = download_target(&None).unwrap_err();
    assert_eq!(e.status, 404);
    assert_eq!(e.message, "File not found");
    let e = download_open_failed("No such file or directory (os error 2)");
    assert_eq!(e.status, 404);
    assert_eq!(e.message, "File not found: No such file or directory (os error 2)");
}

#[test]
fn cleaner_removes_existing_files_only() {
    let f = sample_file();
    match expired_file_action(&f, true) {
        CleanupAction::RemoveAndMark { stored_name } => assert_eq!(stored_name, "AbCdEfGhIjKlMnO"),
        CleanupAction::Skip => panic!("an existing expired file must be removed"),
    }
    assert!(matches!(expired_file_action(&f, false), CleanupAction::Skip));
    assert_eq!(CLEANER_INTERVAL_SECS, 5);
}

#[test]
fn app_error_carries_message() {
    let AppError::Internal(m) = AppError::Internal("db down".to_string()).clone();
    assert_eq!(m, "db down");
}

#[test]
fn file_model_holds_row() {
    let m = FileModel {
        id: 3,
        hash: Some("x".to_string()),
        name: None,
        md5: None,
        content_type: None,
        size: Some(0),
        created_at: None,
    };
    assert_eq!(m.id, 3);
    assert_eq!(m.size, Some(0));
}

#[test]
fn cleaner_marks_row_even_when_removal_fails() {
    let name = "AbCdEfGhIjKlMnO".to_string();
    assert_eq!(row_to_mark(&name, true), Some(name.clone()));
    assert_eq!(row_to_mark(&name, false), Some(name.clone()));
}
