use photo_moderation::intake::{classify_upload, get_user_text, IntakeDecision};
use photo_moderation::raster::Image;

#[test]
fn image_documents_under_limit_are_accepted() {
    assert_eq!(classify_upload(true, Some("image/jpeg"), 2 * 1024 * 1024), IntakeDecision::Accept);
    assert_eq!(classify_upload(true, Some("IMAGE/HEIC"), 20 * 1024 * 1024 - 1), IntakeDecision::Accept);
    assert_eq!(classify_upload(true, Some("image/heic"), 20 * 1000 * 1000), IntakeDecision::Accept);
}

#[test]
fn size_limit_is_exclusive() {
    assert_eq!(classify_upload(true, Some("image/heic"), 20 * 1024 * 1024), IntakeDecision::TooLarge);
}

#[test]
fn other_uploads_are_refused() {
    assert_eq!(classify_upload(true, Some("application/pdf"), 10), IntakeDecision::NotAnImage);
    assert_eq!(classify_upload(true, Some("garbage"), 10), IntakeDecision::NotAnImage);
    assert_eq!(classify_upload(true, None, 10), IntakeDecision::Untyped);
    assert_eq!(classify_upload(false, Some("image/jpeg"), 10), IntakeDecision::NotADocument);
}

#[test]
fn submitter_mentions() {
    assert_eq!(get_user_text(&Some("alice".to_string()), "Alice", "tg://user?id=1"), "@alice");
    assert_eq!(get_user_text(&None, "Bob", "tg://user?id=2"), "<a href=\"tg://user?id=2\">Bob</a>");
}

#[test]
fn image_resize_keeps_aspect_and_bounds_longer_edge() {
    let mut img = Image::new(image::DynamicImage::new_rgb8(600, 300));
    assert_eq!(img.get_size(), (600, 300));
    img.resize(400);
    assert_eq!(img.get_size(), (400, 200));
    img.resize(100);
    assert_eq!(img.get_size(), (100, 50));
    let mut tall = Image::new(image::DynamicImage::new_rgb8(30, 71));
    tall.resize(20);
    assert_eq!(tall.get_size(), (8, 20));
    assert_eq!(tall.as_dynamic().width(), 8);
    assert_eq!(tall.as_dynamic().height(), 20);
}
