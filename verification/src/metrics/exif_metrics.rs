//! How the EXIF table and the images on disk differ.

use vstd::prelude::*;
use crate::text::{concat3, decimal_digits, format_u64};

verus! {

/// The outcome of comparing the images on disk with the paths in the EXIF table.
#[derive(Clone)]
pub struct ExifMissingAnalysis {
    pub total_differences: usize,
    pub files_missing_from_sql: Vec<String>,
    pub files_missing_from_disk: Vec<String>,
    pub message: String,
    pub log: String,
    pub log_error: String,
}

impl ExifMissingAnalysis {
    /// The analysis of a comparison of `disk_count` images on disk with `sql_count`
    /// paths in the EXIF table, which found the files missing on either side and
    /// `total_differences` differences in all: the log names both counts and the
    /// message the number of differences.
    pub fn from_comparison(
        disk_count: usize,
        sql_count: usize,
        files_missing_from_sql: Vec<String>,
        files_missing_from_disk: Vec<String>,
        total_differences: usize,
    ) -> (r: Self)
        ensures
            r.total_differences == total_differences,
            r.files_missing_from_sql@ == files_missing_from_sql@,
            r.files_missing_from_disk@ == files_missing_from_disk@,
            r.message@ == "There are "@ + decimal_digits(total_differences as nat)
                + " exif file differences"@,
            r.log@ == "Comparing "@ + decimal_digits(disk_count as nat) + " images on disk to "@
                + decimal_digits(sql_count as nat) + " in exif sql list"@,
            r.log_error@ == Seq::<char>::empty(),
    {
        let disk = format_u64(disk_count as u64);
        let sql = format_u64(sql_count as u64);
        let head = concat3("Comparing ", disk.as_str(), " images on disk to ");
        let log = concat3(head.as_str(), sql.as_str(), " in exif sql list");
        let total = format_u64(total_differences as u64);
        let message = concat3("There are ", total.as_str(), " exif file differences");
        ExifMissingAnalysis {
            total_differences,
            files_missing_from_sql,
            files_missing_from_disk,
            message,
            log,
            log_error: String::new(),
        }
    }

    /// How many images on disk have no EXIF entry, with the sentence that says so.
    pub fn missing_in_sql_count(&self) -> (r: (usize, String))
        ensures
            r.0 == self.files_missing_from_sql@.len(),
            r.1@ == "There are "@ + decimal_digits(r.0 as nat) + " images on disk without a known exif entry"@,
    {
        let v = self.files_missing_from_sql.len();
        let count = format_u64(v as u64);
        (v, concat3("There are ", count.as_str(), " images on disk without a known exif entry"))
    }

    /// How many EXIF entries have no image on disk, with the sentence that says so.
    pub fn missing_on_disk_count(&self) -> (r: (usize, String))
        ensures
            r.0 == self.files_missing_from_disk@.len(),
            r.1@ == "There are "@ + decimal_digits(r.0 as nat)
                + " images in the exif SQL table without a valid image on disk"@,
    {
        let v = self.files_missing_from_disk.len();
        let count = format_u64(v as u64);
        (v, concat3("There are ", count.as_str(), " images in the exif SQL table without a valid image on disk"))
    }
}

} // verus!
