//! The record of one schema migration.

use vstd::prelude::*;
use crate::text::owned;

verus! {

/// One schema migration: its version number, what it does, and when it was applied
/// (empty while it has not been).
pub struct Migration {
    pub version: i32,
    pub description: String,
    pub applied_at: String,
}

impl Migration {
    /// The migration read from a row of the migrations table, given the row's
    /// `version`, `description` and `applied_at` columns as they could be read: a
    /// column that could not be read counts as `0` or as the empty string.
    pub fn new_from_db(version: Option<i32>, description: Option<String>, applied_at: Option<String>) -> (r: Self)
        ensures
            r.version == (match version {
                Some(v) => v,
                None => 0i32,
            }),
            r.description@ == (match description {
                Some(d) => d@,
                None => Seq::<char>::empty(),
            }),
            r.applied_at@ == (match applied_at {
                Some(a) => a@,
                None => Seq::<char>::empty(),
            }),
    {
        Migration {
            version: match version {
                Some(v) => v,
                None => 0,
            },
            description: match description {
                Some(d) => d,
                None => String::new(),
            },
            applied_at: match applied_at {
                Some(a) => a,
                None => String::new(),
            },
        }
    }

    /// The migration numbered `version` described by `description`, not yet applied.
    pub fn new_from_file(version: i32, description: &str) -> (r: Self)
        ensures
            r.version == version,
            r.description@ == description@,
            r.applied_at@ == Seq::<char>::empty(),
    {
        Migration { version, description: owned(description), applied_at: String::new() }
    }
}

} // verus!
