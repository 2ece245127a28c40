use api_s3::models::device::{DeviceConfig, DeviceTarget};
use api_s3::models::resources::ResourceCategory;
use std::str::FromStr;

#[test]
fn device_quality_by_target() {
    assert_eq!(DeviceTarget::Phone.default_quality(), 75);
    assert_eq!(DeviceTarget::Tablet.default_quality(), 80);
    assert_eq!(DeviceTarget::Desktop.default_quality(), 85);
}

#[test]
fn device_target_parses_ignoring_case() {
    assert_eq!(DeviceTarget::from_str("phone"), Ok(DeviceTarget::Phone));
    assert_eq!(DeviceTarget::from_str("Phone"), Ok(DeviceTarget::Phone));
    assert_eq!(DeviceTarget::from_str("TABLET"), Ok(DeviceTarget::Tablet));
    assert_eq!(DeviceTarget::parse("DeskTop"), Ok(DeviceTarget::Desktop));
}

#[test]
fn device_target_rejects_unknown_names() {
    assert_eq!(
        DeviceTarget::from_str("watch"),
        Err("Invalid device target: watch".to_string())
    );
    assert_eq!(
        DeviceTarget::parse(""),
        Err("Invalid device target: ".to_string())
    );
    assert_eq!(
        DeviceTarget::parse(" phone"),
        Err("Invalid device target:  phone".to_string())
    );
}

#[test]
fn device_target_from_lowercase_quotes_original() {
    assert_eq!(
        DeviceTarget::from_lowercase("tv", "TV"),
        Err("Invalid device target: TV".to_string())
    );
    assert_eq!(DeviceTarget::from_lowercase("phone", "PHONE"), Ok(DeviceTarget::Phone));
}

#[test]
fn defaults() {
    assert_eq!(DeviceTarget::default(), DeviceTarget::Desktop);
    let c = DeviceConfig::default();
    assert_eq!(c.target, DeviceTarget::Desktop);
    assert_eq!((c.width, c.height), (1920, 1080));
}

#[test]
fn category_prefixes() {
    assert_eq!(ResourceCategory::Icons.s3_prefix(), "icons");
    assert_eq!(ResourceCategory::ImagesTags.s3_prefix(), "images_tags");
    assert_eq!(ResourceCategory::ImagesTemporaires.s3_prefix(), "images_temporaires");
    assert_eq!(ResourceCategory::Logos.s3_prefix(), "logos");
    assert_eq!(ResourceCategory::Utils.s3_prefix(), "utils");
    assert_eq!(ResourceCategory::Images.s3_prefix(), "data/images");
}

#[test]
fn category_parses_ignoring_case() {
    assert_eq!(ResourceCategory::from_str("icons").unwrap(), ResourceCategory::Icons);
    assert_eq!(ResourceCategory::from_str("Images_Tags").unwrap(), ResourceCategory::ImagesTags);
    assert_eq!(
        ResourceCategory::from_str("IMAGES_TEMPORAIRES").unwrap(),
        ResourceCategory::ImagesTemporaires
    );
    assert_eq!(ResourceCategory::parse("logos").unwrap(), ResourceCategory::Logos);
    assert_eq!(ResourceCategory::parse("Utils").unwrap(), ResourceCategory::Utils);
    assert_eq!(ResourceCategory::parse("images").unwrap(), ResourceCategory::Images);
}

#[test]
fn category_rejects_unknown_names() {
    assert_eq!(
        ResourceCategory::from_str("data/images"),
        Err("Unknown resource category: data/images".to_string())
    );
    assert_eq!(
        ResourceCategory::from_lowercase("videos", "Videos"),
        Err("Unknown resource category: Videos".to_string())
    );
}
