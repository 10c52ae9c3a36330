use photo_moderation::exif::{ExifLoader, ExifTag, ExifValue};
use photo_moderation::pipeline::compose_caption;

fn ascii(s: &str) -> ExifValue {
    ExifValue::Ascii(s.as_bytes().to_vec())
}

fn rational(num: u32, denom: u32) -> ExifValue {
    ExifValue::Rational { num, denom, shown: format!("{}/{}", num, denom) }
}

#[test]
fn maker_model_not_contained_is_joined() {
    let exif = ExifLoader::new(vec![(ExifTag::Make, ascii("Apple")), (ExifTag::Model, ascii("iPhone 13"))]);
    assert_eq!(exif.get_maker_model(), Some("Apple iPhone 13".to_string()));
}

#[test]
fn maker_model_contained_uses_model() {
    let exif = ExifLoader::new(vec![(ExifTag::Make, ascii("SONY")), (ExifTag::Model, ascii("Sony A7 III"))]);
    assert_eq!(exif.get_maker_model(), Some("Sony A7 III".to_string()));
}

#[test]
fn maker_alone_is_title_cased() {
    let exif = ExifLoader::new(vec![(ExifTag::Make, ascii("canon"))]);
    assert_eq!(exif.get_maker_model(), Some("Canon".to_string()));
}

#[test]
fn model_alone_is_kept() {
    let exif = ExifLoader::new(vec![(ExifTag::Model, ascii("Pixel 7"))]);
    assert_eq!(exif.get_maker_model(), Some("Pixel 7".to_string()));
}

#[test]
fn no_maker_no_model() {
    let exif = ExifLoader::empty();
    assert_eq!(exif.get_maker_model(), None);
    assert_eq!(exif.get_photo_info_string(), None);
    assert!(exif.caption_lines().is_empty());
}

#[test]
fn technical_line_in_order() {
    let exif = ExifLoader::new(vec![
        (ExifTag::PhotographicSensitivity, ExifValue::Shown("100".to_string())),
        (ExifTag::FocalLength, rational(26, 1)),
        (ExifTag::ExposureTime, rational(1, 125)),
        (ExifTag::FNumber, rational(18, 10)),
    ]);
    assert_eq!(exif.get_focal_number(), Some("f/1.80".to_string()));
    assert_eq!(exif.get_exposure_time(), Some("1/125s".to_string()));
    assert_eq!(exif.get_focal_length(), Some("26.00mm".to_string()));
    assert_eq!(exif.get_iso(), Some("ISO100".to_string()));
    assert_eq!(exif.get_photo_info_string(), Some("f/1.80 1/125s 26.00mm ISO100".to_string()));
}

#[test]
fn technical_line_omits_absent_fields() {
    let exif = ExifLoader::new(vec![(ExifTag::ExposureTime, rational(10, 2500))]);
    assert_eq!(exif.get_photo_info_string(), Some("1/250s".to_string()));
}

#[test]
fn two_decimals_round_half_to_even() {
    let exif = ExifLoader::new(vec![(ExifTag::FNumber, rational(1, 8)), (ExifTag::FocalLength, rational(3, 8))]);
    assert_eq!(exif.get_focal_number(), Some("f/0.12".to_string()));
    assert_eq!(exif.get_focal_length(), Some("0.38mm".to_string()));
}

#[test]
fn degenerate_rationals_are_absent() {
    let exif = ExifLoader::new(vec![(ExifTag::FNumber, rational(5, 0)), (ExifTag::ExposureTime, rational(0, 5))]);
    assert_eq!(exif.get_focal_number(), None);
    assert_eq!(exif.get_exposure_time(), None);
}

#[test]
fn ascii_quotes_are_removed() {
    let exif = ExifLoader::new(vec![(ExifTag::Software, ascii("\"Lightroom\" 6"))]);
    assert_eq!(exif.get_software(), Some("Lightroom 6".to_string()));
}

#[test]
fn invalid_utf8_is_absent() {
    let exif = ExifLoader::new(vec![(ExifTag::Make, ExifValue::Ascii(vec![0xff, 0xfe]))]);
    assert_eq!(exif.get_maker(), None);
}

#[test]
fn first_value_of_a_tag_counts() {
    let exif = ExifLoader::new(vec![(ExifTag::Model, ascii("A")), (ExifTag::Model, ascii("B"))]);
    assert_eq!(exif.get_model(), Some("A".to_string()));
    assert_eq!(exif.get_field_string(ExifTag::Make), None);
}

#[test]
fn caption_with_metadata() {
    let exif = ExifLoader::new(vec![
        (ExifTag::Make, ascii("Apple")),
        (ExifTag::Model, ascii("iPhone 13")),
        (ExifTag::FNumber, rational(16, 10)),
    ]);
    let caption = compose_caption(exif.caption_lines(), "@alice");
    assert_eq!(caption, "📸 Снято на: Apple iPhone 13\nℹ️ f/1.60\n\n👤 Автор: @alice");
}

#[test]
fn caption_without_metadata_is_attribution_only() {
    let caption = compose_caption(ExifLoader::empty().caption_lines(), "@alice");
    assert_eq!(caption, "👤 Автор: @alice");
}
