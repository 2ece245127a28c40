use api_s3::services::errors::{ImageProcessingError, StorageError};

#[test]
fn processing_status_codes() {
    assert_eq!(ImageProcessingError::NotFound("x".into()).status_code(), 404);
    assert_eq!(ImageProcessingError::DecodeError("x".into()).status_code(), 400);
    assert_eq!(ImageProcessingError::EncodeError("x".into()).status_code(), 500);
    assert_eq!(ImageProcessingError::InternalError("x".into()).status_code(), 500);
}

#[test]
fn storage_status_codes() {
    assert_eq!(StorageError::NotFound("x".into()).status_code(), 404);
    assert_eq!(StorageError::IoError("x".into()).status_code(), 500);
}

#[test]
fn messages() {
    assert_eq!(
        ImageProcessingError::DecodeError("bad".into()).message(),
        "Failed to decode image: bad"
    );
    assert_eq!(
        ImageProcessingError::EncodeError("bad".into()).message(),
        "Failed to encode image: bad"
    );
    assert_eq!(
        ImageProcessingError::NotFound("k".into()).message(),
        "Image not found: k"
    );
    assert_eq!(
        ImageProcessingError::InternalError("oops".into()).message(),
        "Internal processing error: oops"
    );
    assert_eq!(StorageError::NotFound("k".into()).message(), "File not found: k");
    assert_eq!(StorageError::IoError("down".into()).message(), "IO Error: down");
}

#[test]
fn storage_errors_become_processing_errors() {
    let nf = ImageProcessingError::from_storage(StorageError::NotFound("File not found: a".into()));
    assert!(matches!(&nf, ImageProcessingError::NotFound(m) if m == "File not found: a"));
    assert_eq!(nf.status_code(), 404);
    let io = ImageProcessingError::from_storage(StorageError::IoError("timeout".into()));
    assert!(matches!(&io, ImageProcessingError::InternalError(m) if m == "Storage error: IO Error: timeout"));
    assert_eq!(io.status_code(), 500);
}
