//! The records the server keeps about each image.

pub mod image;
pub mod image_aspect_ratio;
pub mod image_iptc;
pub mod image_ocr_text;
pub mod image_paths;
pub mod image_similarity;
pub mod image_tag;
pub mod image_thumbnail;
pub mod image_xmp;
pub mod query_params;
pub mod top_level_metrics;
