//! Comparisons of what is on disk with what the database knows.

pub mod exif_metrics;
