use std::io::ErrorKind;
use std::time::SystemTime;

use vivs_images_webserver::metrics::exif_metrics::ExifMissingAnalysis;
use vivs_images_webserver::models::image_aspect_ratio::ImageQuality;
use vivs_images_webserver::models::image_iptc::{is_iptc_field_name, ImageIptc};
use vivs_images_webserver::models::image_ocr_text::ImageOcrText;
use vivs_images_webserver::models::image_similarity::ImageComparisonAlgorithm;
use vivs_images_webserver::models::image_tag::{ImageTag, ImageTagSet, Tag};
use vivs_images_webserver::models::image_thumbnail::{ImageThumbnail, ImageThumbnailVec, ThumbnailFormat};
use vivs_images_webserver::models::image_xmp::ImageXmp;
use vivs_images_webserver::models::top_level_metrics::TopLevelMetrics;

#[test]
fn thumbnail_formats_and_their_numbers() {
    for n in 0u8..4 {
        let f = ThumbnailFormat::try_from(n).unwrap();
        assert_eq!(ThumbnailFormat::try_into(&f).unwrap(), n);
        assert_eq!(f.to_string(), n.to_string());
    }
    assert!(matches!(ThumbnailFormat::try_from(1).unwrap(), ThumbnailFormat::JPG));
    let err = ThumbnailFormat::try_from(4).unwrap_err();
    assert_eq!(err.kind(), ErrorKind::InvalidData);
}

#[test]
fn qualities_and_their_numbers() {
    assert_eq!(ImageQuality::try_from(0), Ok(ImageQuality::Low));
    assert_eq!(ImageQuality::try_from(2), Ok(ImageQuality::HD));
    assert_eq!(ImageQuality::try_from(3), Ok(ImageQuality::XHD));
    assert_eq!(ImageQuality::try_from(4), Err(()));
    assert_eq!(ImageQuality::try_into(&ImageQuality::Med), Ok(1));
    for q in [ImageQuality::XHD, ImageQuality::HD, ImageQuality::Med, ImageQuality::Low] {
        assert_eq!(ImageQuality::try_from(ImageQuality::try_into(&q).unwrap()), Ok(q));
    }
}

#[test]
fn algorithms_and_their_numbers() {
    assert_eq!(ImageComparisonAlgorithm::try_from(0), Ok(ImageComparisonAlgorithm::Magick));
    assert_eq!(ImageComparisonAlgorithm::try_from(1), Ok(ImageComparisonAlgorithm::CustomV1));
    assert_eq!(ImageComparisonAlgorithm::try_from(2), Err(()));
    assert_eq!(ImageComparisonAlgorithm::try_into(&ImageComparisonAlgorithm::CustomV2Thumbnails), Ok(2));
    assert_eq!(ImageComparisonAlgorithm::CustomV2Thumbnails.to_string(), "2");
    assert_eq!(ImageComparisonAlgorithm::CustomV1.to_string(), "1");
}

fn thumb(side: u32, format: ThumbnailFormat) -> ImageThumbnail {
    ImageThumbnail::new("/p/a.jpg".to_string(), side, format, vec![1, 2, 3])
}

#[test]
fn thumbnail_fields() {
    let t = thumb(64, ThumbnailFormat::BMP);
    assert_eq!(t.get_field("image_path"), Some("/p/a.jpg".to_string()));
    assert_eq!(t.get_field("width_and_length"), Some("64".to_string()));
    assert_eq!(t.get_field("thumbnail_format"), Some("2".to_string()));
    assert_eq!(t.get_field("thumbnail_data"), None);
    assert_eq!(t.get_field_blob("thumbnail_data"), Some(vec![1, 2, 3]));
    assert_eq!(t.get_field_blob("image_path"), None);
    assert_eq!(t.to_string(), "width_and_length: 64, thumbnail_format: 2");
    let v = ImageThumbnailVec(vec![thumb(64, ThumbnailFormat::PNG), thumb(128, ThumbnailFormat::RAW_rgb8)]);
    assert_eq!(v.to_string(), "width_and_length: 64, thumbnail_format: 0, width_and_length: 128, thumbnail_format: 3");
    assert_eq!(ImageThumbnailVec(vec![]).to_string(), "");
}

fn tag(id: Option<u32>, path: &str, name: &str) -> ImageTag {
    ImageTag { image_tag_id: id, image_path: path.to_string(), tag_name: name.to_string() }
}

#[test]
fn image_tag_fields_and_equality() {
    let t = tag(Some(7), "a.jpg", "cat");
    assert_eq!(t.get_field("image_tag_id"), Some("7".to_string()));
    assert_eq!(t.get_field("image_path"), Some("a.jpg".to_string()));
    assert_eq!(t.get_field("tag_name"), Some("cat".to_string()));
    assert_eq!(t.get_field("other"), None);
    assert_eq!(tag(None, "a.jpg", "cat").get_field("image_tag_id"), None);
    assert_eq!(t.to_string(), "a.jpg: cat");
    assert!(t == tag(None, "a.jpg", "cat"));
    assert!(t != tag(Some(7), "a.jpg", "dog"));
}

#[test]
fn tag_sets_keep_the_first_of_equal_tags() {
    let s = ImageTagSet::new(vec![
        tag(Some(1), "a.jpg", "cat"),
        tag(Some(2), "a.jpg", "dog"),
        tag(Some(3), "a.jpg", "cat"),
        tag(Some(4), "b.jpg", "cat"),
    ]);
    let ids: Vec<Option<u32>> = s.tags().iter().map(|t| t.image_tag_id).collect();
    assert_eq!(ids, vec![Some(1), Some(2), Some(4)]);
    let s = ImageTagSet::new_from_strings(
        "c.jpg".to_string(),
        vec!["x".to_string(), "y".to_string(), "x".to_string()],
    );
    let names: Vec<String> = s.tags().iter().map(|t| t.tag_name.clone()).collect();
    assert_eq!(names, vec!["x".to_string(), "y".to_string()]);
    assert!(s.tags().iter().all(|t| t.image_path == "c.jpg" && t.image_tag_id.is_none()));
}

#[test]
fn tags_print_name_label_and_description() {
    let t = Tag { tag_name: "cat".to_string(), tag_label: "Cat".to_string(), tag_description: "felines".to_string() };
    assert_eq!(t.to_string(), "cat (Cat) - felines");
    assert_eq!(t.get_field("tag_label"), Some("Cat".to_string()));
    assert_eq!(t.get_field("x"), None);
    let same_name = Tag { tag_name: "cat".to_string(), tag_label: "".to_string(), tag_description: "".to_string() };
    assert!(t == same_name);
}

#[test]
fn ocr_text_and_xmp_fields() {
    let o = ImageOcrText { image_path: "a.png".to_string(), ocr_text: "hello there".to_string() };
    assert_eq!(o.get_field("ocr_text"), Some("hello there".to_string()));
    assert_eq!(o.get_field("image_path"), Some("a.png".to_string()));
    assert_eq!(o.get_field("xmp"), None);
    assert_eq!(o.to_string(), "ocr_text: \"hello there\", ");
    let o = ImageOcrText { image_path: "a.png".to_string(), ocr_text: "say \"hi\"\n".to_string() };
    assert_eq!(o.to_string(), "ocr_text: \"say \\\"hi\\\"\\n\", ");
    let x = ImageXmp { image_path: "a.png".to_string(), xmp: "<x/>".to_string() };
    assert_eq!(x.get_field("xmp"), Some("<x/>".to_string()));
    assert_eq!(x.get_field("ocr_text"), None);
    assert_eq!(x.to_string(), "xmp: <x/>");
}

#[test]
fn iptc_default_has_no_field() {
    let r = ImageIptc::default("/p/a.jpg");
    assert!(r.is_none());
    assert_eq!(r.get_field("image_path"), Some("/p/a.jpg".to_string()));
    assert_eq!(r.get_field("headline"), None);
}

#[test]
fn iptc_field_written_is_read_back() {
    let mut r = ImageIptc::default("/p/a.jpg");
    assert!(r.set_field_value("headline".to_string(), "Storm".to_string()).is_ok());
    assert_eq!(r.get_field("headline"), Some("Storm".to_string()));
    assert_eq!(r.get_field("Headline"), Some("Storm".to_string()));
    assert!(!r.is_none());
    assert_eq!(r.get_field("city"), None);
}

#[test]
fn iptc_pascal_case_names_are_tried_in_snake_case() {
    let mut r = ImageIptc::default("/p/a.jpg");
    assert!(r.set_field_value("ModelVersion".to_string(), "4".to_string()).is_ok());
    assert_eq!(r.model_version, Some("4".to_string()));
    assert!(r.set_field_value("ByLineTitle".to_string(), "Editor".to_string()).is_ok());
    assert_eq!(r.get_field("by_line_title"), Some("Editor".to_string()));
}

#[test]
fn iptc_unknown_names_are_not_found() {
    let mut r = ImageIptc::default("/p/a.jpg");
    let err = r.set_field_value("NoSuchField".to_string(), "x".to_string()).unwrap_err();
    assert_eq!(err.kind(), ErrorKind::NotFound);
    let err = r.set_field_value("no such field".to_string(), "x".to_string()).unwrap_err();
    assert_eq!(err.kind(), ErrorKind::NotFound);
    assert!(r.is_none());
    assert_eq!(r.get_field("NoSuchField"), None);
    assert!(is_iptc_field_name("caption"));
    assert!(!is_iptc_field_name("Caption"));
}

#[test]
fn iptc_checked_lookups() {
    let mut r = ImageIptc::default("/p/a.jpg");
    assert_eq!(r.try_set_field_value("city".to_string(), "Oslo".to_string()).map(|x| x.is_ok()), Some(true));
    assert_eq!(r.try_get_field("city"), Some(Some("Oslo".to_string())));
    assert_eq!(r.try_get_field("nothing"), Some(None));
}

#[test]
fn top_level_metrics_take_the_largest_count() {
    let rows = vec![
        vec![("total_images".to_string(), 10u32)],
        vec![("total_similarity".to_string(), 4u32), ("total_images".to_string(), 3u32)],
        vec![("total_brightness".to_string(), 9u32)],
        vec![],
    ];
    let t = TopLevelMetrics::new(&rows, SystemTime::UNIX_EPOCH);
    assert_eq!(t.total_images, 10);
    assert_eq!(t.total_similarity, 4);
    assert_eq!(t.total_brightness, 9);
    assert_eq!(t.total_thumbnails, 0);
    assert_eq!(t.total_ocr_text, 0);
    assert_eq!(t.categories, 0);
    assert_eq!(t.last_updated, SystemTime::UNIX_EPOCH);
    let t = TopLevelMetrics::new(&vec![], SystemTime::UNIX_EPOCH);
    assert_eq!(t.total_images, 0);
}

#[test]
fn exif_analysis_messages() {
    let a = ExifMissingAnalysis::from_comparison(
        12,
        10,
        vec!["/a.jpg".to_string(), "/b.jpg".to_string()],
        vec![],
        2,
    );
    assert_eq!(a.message, "There are 2 exif file differences");
    assert_eq!(a.log, "Comparing 12 images on disk to 10 in exif sql list");
    assert_eq!(a.log_error, "");
    assert_eq!(a.total_differences, 2);
    assert_eq!(a.files_missing_from_sql.len(), 2);
    assert_eq!(
        a.missing_in_sql_count(),
        (2, "There are 2 images on disk without a known exif entry".to_string())
    );
    assert_eq!(
        a.missing_on_disk_count(),
        (0, "There are 0 images in the exif SQL table without a valid image on disk".to_string())
    );
}
