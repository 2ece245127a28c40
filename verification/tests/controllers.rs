use api_s3::controllers::resources::bulk::{
    item_outcome,
    batch_item_key, build_multipart_chunk, validate_request, BulkStream,
};
use api_s3::controllers::resources::get::plan_resource_request;
use api_s3::models::device::{DeviceConfig, DeviceTarget};
use api_s3::models::resources::{BatchResourceItem, BatchResourceRequest, ResourceQuery};
use api_s3::services::multipart::MultipartBuilder;
use api_s3::services::errors::ImageProcessingError;
use api_s3::services::storage::StorageService;

fn query(width: Option<u32>, target: Option<&str>) -> ResourceQuery {
    ResourceQuery { width, target: target.map(|t| t.to_string()) }
}

#[test]
fn single_request_builds_key_and_config() {
    let plan = plan_resource_request(
        "images",
        "00584f147d171b9c512d37f7b9f696c3.png",
        &query(Some(300), Some("Phone")),
    )
    .unwrap();
    assert_eq!(plan.key, "data/images/00584f147d171b9c512d37f7b9f696c3.png");
    assert_eq!(plan.config.target, DeviceTarget::Phone);
    assert_eq!((plan.config.width, plan.config.height), (300, 0));

    let plan = plan_resource_request("Icons", "musee-001/avatar.png", &query(Some(4000), None)).unwrap();
    assert_eq!(plan.key, "icons/musee-001/avatar.png");
    assert_eq!(plan.config.target, DeviceTarget::Desktop);
}

#[test]
fn single_request_width_bounds() {
    for w in [None, Some(0), Some(4001), Some(u32::MAX)] {
        let r = plan_resource_request("images", "a.png", &query(w, Some("Phone"))).unwrap_err();
        assert_eq!(r.status, 400);
        assert_eq!(r.message, "Width must be between 1 and 4000");
    }
    assert!(plan_resource_request("images", "a.png", &query(Some(1), Some("Phone"))).is_ok());
}

#[test]
fn single_request_rejections() {
    let r = plan_resource_request("images", "a.png", &query(Some(10), Some("watch"))).unwrap_err();
    assert_eq!((r.status, r.message.as_str()), (400, "Invalid device target: watch"));

    let r = plan_resource_request("videos", "a.png", &query(Some(10), None)).unwrap_err();
    assert_eq!(
        (r.status, r.message.as_str()),
        (400, "Invalid category: Unknown resource category: videos")
    );

    let r = plan_resource_request("images", "../secret.txt", &query(Some(1920), Some("Desktop"))).unwrap_err();
    assert_eq!((r.status, r.message.as_str()), (400, "Invalid path"));
}

#[test]
fn single_request_checks_width_before_target_and_category() {
    let r = plan_resource_request("videos", "../x", &query(Some(0), Some("watch"))).unwrap_err();
    assert_eq!(r.message, "Width must be between 1 and 4000");
    let r = plan_resource_request("videos", "../x", &query(Some(5), Some("watch"))).unwrap_err();
    assert_eq!(r.message, "Invalid device target: watch");
    let r = plan_resource_request("videos", "../x", &query(Some(5), None)).unwrap_err();
    assert_eq!(r.message, "Invalid category: Unknown resource category: videos");
}

fn batch(width: u32, n: usize) -> BatchResourceRequest {
    BatchResourceRequest {
        config: DeviceConfig { target: DeviceTarget::Phone, width, height: 100 },
        items: (0..n)
            .map(|i| BatchResourceItem { category: "images".to_string(), path: format!("{i}.png") })
            .collect(),
    }
}

#[test]
fn batch_validation() {
    assert!(validate_request(&batch(100, 1)).is_ok());
    assert!(validate_request(&batch(4000, 50)).is_ok());
    let r = validate_request(&batch(100, 51)).unwrap_err();
    assert_eq!((r.status, r.message.as_str()), (400, "Batch limited to 50 items"));
    let r = validate_request(&batch(5000, 0)).unwrap_err();
    assert_eq!((r.status, r.message.as_str()), (400, "Width must be between 1 and 4000"));
    let r = validate_request(&batch(0, 3)).unwrap_err();
    assert_eq!(r.status, 400);
    let r = validate_request(&batch(100, 0)).unwrap_err();
    assert_eq!((r.status, r.message.as_str()), (404, ""));
}

#[test]
fn batch_item_keys() {
    let item = BatchResourceItem { category: "Icons".into(), path: "musee-001/avatar.png".into() };
    assert_eq!(batch_item_key(&item).unwrap(), "icons/musee-001/avatar.png");
    let item = BatchResourceItem { category: "videos".into(), path: "a".into() };
    assert_eq!(batch_item_key(&item).unwrap_err(), "Invalid category: videos");
    let item = BatchResourceItem { category: "images".into(), path: "x/../y".into() };
    assert_eq!(batch_item_key(&item).unwrap_err(), "Invalid path");
}

#[test]
fn chunk_bytes() {
    let chunk = build_multipart_chunk("cat", &[1, 2, 3], "b");
    let mut expected = b"--b\r\nContent-Type: image/webp\r\nContent-Disposition: attachment; filename=\"cat.jpg\"\r\n\r\n".to_vec();
    expected.extend_from_slice(&[1, 2, 3]);
    expected.extend_from_slice(b"\r\n");
    assert_eq!(chunk, expected);
}

#[test]
fn builder_body() {
    assert_eq!(MultipartBuilder::new("xyz").finish(), Vec::<u8>::new());
    let mut b = MultipartBuilder::new("xyz");
    b.add_part("a.webp", "image/webp", &[7]);
    b.add_part("é.png", "image/png", &[]);
    let body = b.finish();
    let mut expected =
        b"--xyz\r\nContent-Type: image/webp\r\nContent-Disposition: attachment; filename=\"a.webp\"\r\n\r\n".to_vec();
    expected.push(7);
    expected.extend_from_slice(b"\r\n");
    expected.extend_from_slice(
        "--xyz\r\nContent-Type: image/png\r\nContent-Disposition: attachment; filename=\"é.png\"\r\n\r\n\r\n".as_bytes(),
    );
    expected.extend_from_slice(b"--xyz--\r\n");
    assert_eq!(body, expected);
}

#[test]
fn stream_matches_builder() {
    let outcomes: Vec<Result<(String, Vec<u8>), String>> = vec![
        Err("Invalid path".into()),
        Ok(("one".into(), vec![1, 1])),
        Err("Image not found: x".into()),
        Ok(("two".into(), vec![2])),
    ];
    let mut stream = BulkStream::new("resource_batch_boundary");
    let mut sent = Vec::new();
    for o in &outcomes {
        if let Some(c) = stream.on_item(o) {
            sent.extend_from_slice(&c);
        }
    }
    if let Some(c) = stream.close() {
        sent.extend_from_slice(&c);
    }
    let mut b = MultipartBuilder::new("resource_batch_boundary");
    b.add_part("one.jpg", "image/webp", &[1, 1]);
    b.add_part("two.jpg", "image/webp", &[2]);
    assert_eq!(sent, b.finish());
}

#[test]
fn stream_without_items_sends_nothing() {
    let mut stream = BulkStream::new("b");
    assert_eq!(stream.on_item(&Err("Invalid category: x".into())), None);
    assert_eq!(stream.close(), None);
}

#[test]
fn planned_keys_pass_the_storage_guard() {
    for path in ["a.png", ".hidden/x.png", "x./.y", "./a"] {
        let plan = plan_resource_request("images_tags", path, &query(Some(10), None)).unwrap();
        assert!(StorageService::validate_key(&plan.key).is_ok(), "{}", plan.key);
        let item = BatchResourceItem { category: "logos".into(), path: path.into() };
        let key = batch_item_key(&item).unwrap();
        assert!(StorageService::validate_key(&key).is_ok(), "{key}");
    }
}

#[test]
fn processed_item_keeps_its_path() {
    let out = item_outcome("photos/cat.png".to_string(), Ok(vec![1, 2]));
    assert_eq!(out, Ok(("photos/cat.png".to_string(), vec![1, 2])));
}

#[test]
fn failed_item_reads_the_failure_message() {
    let out = item_outcome("x.png".to_string(), Err(ImageProcessingError::NotFound("File not found: icons/x.png".into())));
    assert_eq!(out, Err("Image not found: File not found: icons/x.png".to_string()));
    let out = item_outcome("x.png".to_string(), Err(ImageProcessingError::DecodeError("bad".into())));
    assert_eq!(out, Err("Failed to decode image: bad".to_string()));
}
