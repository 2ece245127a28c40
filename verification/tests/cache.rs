use api_s3::models::device::DeviceTarget;
use api_s3::services::cache::{entry_name, ImageCache};
use api_s3::services::errors::ImageProcessingError;

#[test]
fn test_cache_limit() {
    let mut cache = ImageCache::new(10);
    let data = vec![1, 2, 3, 4, 5, 6];

    cache.set("img1", 10, 10, data.clone());
    assert!(cache.get("img1", 10, 10).is_some());

    // This should fail to cache because it would exceed 10 bytes
    cache.set("img2", 10, 10, vec![1, 2, 3, 4, 5]);
    assert!(cache.get("img2", 10, 10).is_none());
}

#[test]
fn cache_returns_what_was_stored() {
    let mut cache = ImageCache::new(100);
    cache.set("photo.png", 300, 0, vec![9, 8, 7]);
    assert_eq!(cache.get("photo.png", 300, 0), Some(vec![9, 8, 7]));
    assert_eq!(cache.get("photo.png", 301, 0), None);
    assert_eq!(cache.get("photo.png", 300, 1), None);
    assert_eq!(cache.get("other.png", 300, 0), None);
}

#[test]
fn cache_keeps_first_write() {
    let mut cache = ImageCache::new(100);
    cache.set("a", 1, 2, vec![1]);
    cache.set("a", 1, 2, vec![2, 2]);
    assert_eq!(cache.get("a", 1, 2), Some(vec![1]));
}

#[test]
fn cache_fills_exactly_to_capacity() {
    let mut cache = ImageCache::new(6);
    cache.set("a", 1, 1, vec![0; 4]);
    cache.set("b", 1, 1, vec![0; 2]);
    assert!(cache.get("b", 1, 1).is_some());
    cache.set("c", 1, 1, vec![0; 1]);
    assert!(cache.get("c", 1, 1).is_none());
}

#[test]
fn cache_zero_capacity_stores_only_empty_images() {
    let mut cache = ImageCache::new(0);
    cache.set("a", 1, 1, vec![1]);
    assert!(cache.get("a", 1, 1).is_none());
    cache.set("b", 1, 1, vec![]);
    assert_eq!(cache.get("b", 1, 1), Some(vec![]));
}

#[test]
fn cache_key_format() {
    assert_eq!(ImageCache::key("img", 10, 20), "img_10_20");
    assert_eq!(ImageCache::key("", 0, 4294967295), "_0_4294967295");
    assert_eq!(ImageCache::key("a_1", 2, 3), "a_1_2_3");
}

#[test]
fn cache_distinguishes_names_that_share_a_prefix() {
    let mut cache = ImageCache::new(100);
    cache.set("a_1", 2, 3, vec![1]);
    assert!(cache.get("a", 12, 3).is_none());
    assert!(cache.get("a_1_2", 3, 0).is_none());
    assert_eq!(cache.get("a_1", 2, 3), Some(vec![1]));
}

#[test]
fn processed_image_is_kept_and_handed_back() {
    let mut cache = ImageCache::new(100);
    let out = cache.keep_processed("icons/a.png", 300, 0, Ok(vec![4, 5, 6]));
    assert_eq!(out.ok(), Some(vec![4, 5, 6]));
    assert_eq!(cache.get("icons/a.png", 300, 0), Some(vec![4, 5, 6]));
}

#[test]
fn failed_processing_leaves_the_cache_alone() {
    let mut cache = ImageCache::new(100);
    let out = cache.keep_processed(
        "icons/a.png",
        300,
        0,
        Err(ImageProcessingError::DecodeError("bad".to_string())),
    );
    assert!(matches!(out, Err(ImageProcessingError::DecodeError(m)) if m == "bad"));
    assert!(cache.get("icons/a.png", 300, 0).is_none());
}

#[test]
fn processed_image_too_large_is_still_handed_back() {
    let mut cache = ImageCache::new(2);
    let out = cache.keep_processed("big", 1, 1, Ok(vec![1, 2, 3]));
    assert_eq!(out.ok(), Some(vec![1, 2, 3]));
    assert!(cache.get("big", 1, 1).is_none());
}

#[test]
fn entry_names_keep_devices_apart() {
    assert_eq!(entry_name("icons/a.png", DeviceTarget::Phone), "phone:icons/a.png");
    assert_eq!(entry_name("icons/a.png", DeviceTarget::Tablet), "tablet:icons/a.png");
    assert_eq!(entry_name("icons/a.png", DeviceTarget::Desktop), "desktop:icons/a.png");
    let mut cache = ImageCache::new(100);
    cache.set(&entry_name("icons/a.png", DeviceTarget::Phone), 300, 0, vec![7]);
    assert!(cache.get(&entry_name("icons/a.png", DeviceTarget::Desktop), 300, 0).is_none());
    assert_eq!(cache.get(&entry_name("icons/a.png", DeviceTarget::Phone), 300, 0), Some(vec![7]));
}

#[test]
fn history_answers_first_accepted_offer() {
    let mut cache = ImageCache::new(5);
    cache.set("a", 1, 1, vec![0; 6]);
    cache.set("b", 1, 1, vec![1; 2]);
    cache.set("a", 1, 1, vec![2; 3]);
    cache.set("a", 1, 1, vec![3; 1]);
    cache.set("b", 1, 1, vec![4]);
    assert_eq!(cache.get("a", 1, 1), Some(vec![2; 3]));
    assert_eq!(cache.get("b", 1, 1), Some(vec![1; 2]));
    assert_eq!(cache.get("c", 1, 1), None);
}
