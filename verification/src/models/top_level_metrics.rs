//! The counts shown on the server's front page.

use vstd::prelude::*;

verus! {

/// `std::time::SystemTime`, carried through unchanged.
#[verifier::external_type_specification]
#[verifier::external_body]
pub struct ExSystemTime(std::time::SystemTime);

/// A result row of the count queries: the columns whose value could be read as a
/// `u32`, each with its name.
pub open spec fn row_view(row: Vec<(String, u32)>) -> Seq<(Seq<char>, u32)> {
    row@.map_values(|e: (String, u32)| (e.0@, e.1))
}

/// The views of a list of result rows.
pub open spec fn rows_view(rows: Seq<Vec<(String, u32)>>) -> Seq<Seq<(Seq<char>, u32)>> {
    rows.map_values(|r: Vec<(String, u32)>| row_view(r))
}

/// The value of the first column of `row` named `name`, or `0` when the row has none.
pub open spec fn row_value(row: Seq<(Seq<char>, u32)>, name: Seq<char>) -> u32
    decreases row.len(),
{
    if row.len() == 0 {
        0
    } else if row[0].0 == name {
        row[0].1
    } else {
        row_value(row.drop_first(), name)
    }
}

/// The largest value of the column `name` over `rows`, a row without it counting as
/// `0`; `0` when there is no row.
pub open spec fn column_max(rows: Seq<Seq<(Seq<char>, u32)>>, name: Seq<char>) -> u32
    decreases rows.len(),
{
    if rows.len() == 0 {
        0
    } else {
        let rest = column_max(rows.drop_last(), name);
        let v = row_value(rows.last(), name);
        if v > rest {
            v
        } else {
            rest
        }
    }
}

/// How many images, comparisons, brightness values, thumbnails, OCR texts and
/// categories the database holds, and when it last changed.
pub struct TopLevelMetrics {
    pub total_images: u32,
    pub total_similarity: u32,
    pub total_brightness: u32,
    pub total_thumbnails: u32,
    pub total_ocr_text: u32,
    pub categories: u32,
    pub last_updated: std::time::SystemTime,
}

/// The value of the column `name` in `row`.
fn value_in_row(row: &Vec<(String, u32)>, name: &str) -> (r: u32)
    ensures
        r == row_value(row_view(*row), name@),
{
    let n = row.len();
    let ghost rv = row_view(*row);
    assert(rv.skip(0) == rv);
    for i in 0..n
        invariant
            n == row@.len(),
            rv == row_view(*row),
            row_value(rv, name@) == row_value(rv.skip(i as int), name@),
    {
        assert(rv.skip(i as int).drop_first() == rv.skip(i + 1));
        assert(rv.skip(i as int)[0] == (row@[i as int].0@, row@[i as int].1));
        if crate::text::str_eq(row[i].0.as_str(), name) {
            return row[i].1;
        }
    }
    assert(rv.skip(n as int).len() == 0);
    0
}

/// The largest value of the column `name` over `rows`.
fn max_of_column(rows: &Vec<Vec<(String, u32)>>, name: &str) -> (r: u32)
    ensures
        r == column_max(rows_view(rows@), name@),
{
    let mut acc: u32 = 0;
    let n = rows.len();
    for i in 0..n
        invariant
            n == rows@.len(),
            acc == column_max(rows_view(rows@.take(i as int)), name@),
    {
        let v = value_in_row(&rows[i], name);
        assert(rows_view(rows@.take(i + 1)).drop_last() == rows_view(rows@.take(i as int)));
        assert(rows_view(rows@.take(i + 1)).last() == row_view(rows@[i as int]));
        if v > acc {
            acc = v;
        }
    }
    assert(rows@.take(n as int) == rows@);
    acc
}

impl TopLevelMetrics {
    /// The metrics read from the rows of the count queries: each count is the largest
    /// value its column takes over the rows (`0` when no row has it), and
    /// `last_updated` is when the database file last changed.
    pub fn new(results: &Vec<Vec<(String, u32)>>, last_updated: std::time::SystemTime) -> (r: Self)
        ensures
            r.total_images == column_max(rows_view(results@), "total_images"@),
            r.total_similarity == column_max(rows_view(results@), "total_similarity"@),
            r.total_brightness == column_max(rows_view(results@), "total_brightness"@),
            r.total_thumbnails == column_max(rows_view(results@), "total_thumbnails"@),
            r.total_ocr_text == column_max(rows_view(results@), "total_ocr_text"@),
            r.categories == column_max(rows_view(results@), "total_categories"@),
            r.last_updated == last_updated,
    {
        Self {
            total_images: max_of_column(results, "total_images"),
            total_similarity: max_of_column(results, "total_similarity"),
            total_brightness: max_of_column(results, "total_brightness"),
            total_thumbnails: max_of_column(results, "total_thumbnails"),
            total_ocr_text: max_of_column(results, "total_ocr_text"),
            categories: max_of_column(results, "total_categories"),
            last_updated,
        }
    }
}

/// The largest value of a column is at least the column's value in every row, and it is
/// the value of some row, or `0`.
pub proof fn lemma_column_max_is_max(rows: Seq<Seq<(Seq<char>, u32)>>, name: Seq<char>)
    ensures
        forall|i: int| 0 <= i < rows.len() ==> row_value(#[trigger] rows[i], name) <= column_max(rows, name),
        column_max(rows, name) == 0 || exists|i: int|
            0 <= i < rows.len() && row_value(#[trigger] rows[i], name) == column_max(rows, name),
    decreases rows.len(),
{
    if rows.len() > 0 {
        let init = rows.drop_last();
        lemma_column_max_is_max(init, name);
        assert forall|i: int| 0 <= i < rows.len() implies row_value(#[trigger] rows[i], name)
            <= column_max(rows, name) by {
            if i < init.len() {
                assert(rows[i] == init[i]);
            }
        }
        if column_max(rows, name) != 0 {
            if column_max(rows, name) == row_value(rows.last(), name) {
                assert(row_value(rows[rows.len() - 1], name) == column_max(rows, name));
            } else {
                let i = choose|i: int|
                    0 <= i < init.len() && row_value(#[trigger] init[i], name) == column_max(init, name);
                assert(rows[i] == init[i]);
            }
        }
    }
}

/// A row's value for a column is the value of the first entry with that name,
/// wherever it stands in the row, and `0` when the row has no such entry.
pub proof fn lemma_row_value_is_first_entry(row: Seq<(Seq<char>, u32)>, name: Seq<char>)
    ensures
        forall|i: int|
            0 <= i < row.len() && (#[trigger] row[i]).0 == name && (forall|j: int|
                0 <= j < i ==> (#[trigger] row[j]).0 != name) ==> row_value(row, name) == row[i].1,
        (forall|j: int| 0 <= j < row.len() ==> (#[trigger] row[j]).0 != name) ==> row_value(row, name) == 0,
    decreases row.len(),
{
    if row.len() > 0 {
        let rest = row.drop_first();
        lemma_row_value_is_first_entry(rest, name);
        assert forall|i: int|
            0 <= i < row.len() && (#[trigger] row[i]).0 == name && (forall|j: int|
                0 <= j < i ==> (#[trigger] row[j]).0 != name) implies row_value(row, name) == row[i].1 by {
            if i > 0 {
                assert(row[0].0 != name);
                assert(rest[i - 1] == row[i]);
                assert forall|j: int| 0 <= j < i - 1 implies (#[trigger] rest[j]).0 != name by {
                    assert(rest[j] == row[j + 1]);
                }
            }
        }
        if forall|j: int| 0 <= j < row.len() ==> (#[trigger] row[j]).0 != name {
            assert(row[0].0 != name);
            assert forall|j: int| 0 <= j < rest.len() implies (#[trigger] rest[j]).0 != name by {
                assert(rest[j] == row[j + 1]);
            }
        }
    }
}

/// Each count is at least the value that any row holds under its column's name, at
/// whatever position the column stands in that row.
pub proof fn lemma_count_covers_every_row(rows: Seq<Seq<(Seq<char>, u32)>>, name: Seq<char>, k: int, i: int)
    requires
        0 <= k < rows.len(),
        0 <= i < rows[k].len(),
        rows[k][i].0 == name,
        forall|j: int| 0 <= j < i ==> (#[trigger] rows[k][j]).0 != name,
    ensures
        rows[k][i].1 <= column_max(rows, name),
{
    lemma_row_value_is_first_entry(rows[k], name);
    lemma_column_max_is_max(rows, name);
}

} // verus!
