use api_s3::services::errors::StorageError;
use api_s3::services::storage::{S3Settings, StorageService};

#[test]
fn traversal_keys_are_rejected() {
    let r = StorageService::validate_key("icons/../../../etc/passwd");
    match r {
        Err(e) => assert!(e.message().contains("Invalid key")),
        Ok(()) => panic!("traversal accepted"),
    }
    assert!(StorageService::validate_key("a..b").is_err());
    assert!(StorageService::validate_key("icons/icon_ampoule.png").is_ok());
    assert!(StorageService::validate_key("a.b.c").is_ok());
    assert!(StorageService::validate_key("").is_ok());
}

#[test]
fn missing_objects_are_classified_by_code() {
    let e = StorageService::classify_failure(Some("NoSuchKey"), "service error", "icons/x.png");
    assert!(matches!(&e, StorageError::NotFound(m) if m == "File not found: icons/x.png"));
    let e = StorageService::classify_failure(Some("404"), "service error", "k");
    assert!(matches!(e, StorageError::NotFound(_)));
}

#[test]
fn missing_objects_are_classified_by_message() {
    for msg in [
        "NoSuchKey: gone",
        "status 404",
        "NotFound",
        "The specified key does not exist.",
        "object not found",
    ] {
        let e = StorageService::classify_failure(None, msg, "k");
        assert!(matches!(&e, StorageError::NotFound(m) if m == "File not found: k"), "{msg}");
    }
}

#[test]
fn other_failures_are_io_errors() {
    let e = StorageService::classify_failure(Some("AccessDenied"), "dispatch failure", "k");
    assert!(matches!(&e, StorageError::IoError(m) if m == "S3 error: dispatch failure"));
    let e = StorageService::classify_failure(None, "Not Found", "k");
    assert!(matches!(e, StorageError::IoError(_)));
}

#[test]
fn bodies() {
    assert_eq!(StorageService::accept_body(Ok(vec![1, 2])).unwrap(), vec![1, 2]);
    let e = StorageService::accept_body(Ok(vec![])).unwrap_err();
    assert!(matches!(&e, StorageError::IoError(m) if m == "Retrieved file is empty"));
    let e = StorageService::accept_body(Err("reset".into())).unwrap_err();
    assert!(matches!(&e, StorageError::IoError(m) if m == "Failed to read response body: reset"));
}

#[test]
fn settings_defaults() {
    let s = S3Settings::resolve(None, None, None, None, None);
    assert_eq!(s.access_key, "minioadmin");
    assert_eq!(s.secret_key, "minioadmin");
    assert_eq!(s.region, "us-east-1");
    assert_eq!(s.endpoint, None);
    assert_eq!(s.bucket, "images");
    let s = S3Settings::resolve(
        Some("ak".into()),
        Some("sk".into()),
        Some("eu-west-3".into()),
        Some("http://localhost:9000".into()),
        Some("pics".into()),
    );
    assert_eq!(s.access_key, "ak");
    assert_eq!(s.secret_key, "sk");
    assert_eq!(s.region, "eu-west-3");
    assert_eq!(s.endpoint.as_deref(), Some("http://localhost:9000"));
    assert_eq!(s.bucket, "pics");
}
