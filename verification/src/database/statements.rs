//! The SQL statements that store, change and look up image records, built from the
//! column descriptions, and how the outcome of a change is judged.

use vstd::prelude::*;

use crate::database::search::{placeholder_list, placeholders};
use crate::models::image::ImageFieldMeta;
use crate::text::{concat2, concat3, decimal_digits, format_u64, join, joined, str_eq, views};

verus! {

/// The names of the columns described by `metas`, in order.
pub open spec fn meta_names(metas: Seq<ImageFieldMeta>) -> Seq<Seq<char>> {
    metas.map_values(|m: ImageFieldMeta| m.name@)
}

/// The names of the columns described by `metas`.
pub fn column_names(metas: &[ImageFieldMeta]) -> (r: Vec<String>)
    ensures
        views(r@) == meta_names(metas@),
{
    let mut r: Vec<String> = Vec::new();
    let n = metas.len();
    for i in 0..n
        invariant
            n == metas@.len(),
            views(r@) == meta_names(metas@.take(i as int)),
    {
        let ghost before = r@;
        r.push(metas[i].name.clone());
        assert(views(r@) == views(before).push(metas@[i as int].name@));
        assert(meta_names(metas@.take(i + 1)) == meta_names(metas@.take(i as int)).push(
            metas@[i as int].name@,
        ));
    }
    assert(metas@.take(n as int) == metas@);
    r
}

/// Whether the column `m` holds binary data.
pub open spec fn is_blob(m: ImageFieldMeta) -> bool {
    m.field_type@ == "blob"@
}

/// The names of the columns of `metas` that hold binary data (`blob`) or that do not
/// (`!blob`), in order.
pub open spec fn names_of_kind(metas: Seq<ImageFieldMeta>, blob: bool) -> Seq<Seq<char>>
    decreases metas.len(),
{
    if metas.len() == 0 {
        Seq::empty()
    } else {
        let rest = names_of_kind(metas.drop_last(), blob);
        if is_blob(metas.last()) == blob {
            rest.push(metas.last().name@)
        } else {
            rest
        }
    }
}

/// The names of the columns of `metas` that hold binary data, when `blob`, or of the
/// other columns.
pub fn column_names_of_kind(metas: &[ImageFieldMeta], blob: bool) -> (r: Vec<String>)
    ensures
        views(r@) == names_of_kind(metas@, blob),
{
    let mut r: Vec<String> = Vec::new();
    let n = metas.len();
    for i in 0..n
        invariant
            n == metas@.len(),
            views(r@) == names_of_kind(metas@.take(i as int), blob),
    {
        assert(metas@.take(i + 1).drop_last() == metas@.take(i as int));
        assert(metas@.take(i + 1).last() == metas@[i as int]);
        if str_eq(metas[i].field_type.as_str(), "blob") == blob {
            let ghost before = r@;
            r.push(metas[i].name.clone());
            assert(views(r@) == views(before).push(metas@[i as int].name@));
        }
    }
    assert(metas@.take(n as int) == metas@);
    r
}

/// `INSERT INTO {table} ({columns}) VALUES ({one ? per column});`
pub open spec fn insert_sql_text(table: Seq<char>, columns: Seq<Seq<char>>) -> Seq<char> {
    "INSERT INTO "@ + table + " ("@ + joined(columns, ", "@) + ") VALUES ("@ + placeholders(
        columns.len(),
    ) + ");"@
}

/// The statement that inserts one row into `table`, giving a value to each of the
/// columns `column_names`.
pub fn insert_sql(table: &str, column_names: &Vec<String>) -> (r: String)
    ensures
        r@ == insert_sql_text(table@, views(column_names@)),
{
    let names = join(column_names, ", ");
    let marks = placeholder_list(column_names.len());
    let head = concat3("INSERT INTO ", table, " (");
    let mid = concat3(head.as_str(), names.as_str(), ") VALUES (");
    concat3(mid.as_str(), marks.as_str(), ");")
}

/// `INSERT INTO image_thumbnail ({other columns},{blob columns}) VALUES ({one ? per
/// column});`
pub open spec fn thumbnail_insert_sql_text(metas: Seq<ImageFieldMeta>) -> Seq<char> {
    "INSERT INTO image_thumbnail ("@ + joined(names_of_kind(metas, false), ", "@) + ","@ + joined(
        names_of_kind(metas, true),
        ", "@,
    ) + ") VALUES ("@ + placeholders(metas.len()) + ");"@
}

/// The statement that inserts one thumbnail: the columns that do not hold binary data
/// first, then those that do.
pub fn thumbnail_insert_sql(metas: &[ImageFieldMeta]) -> (r: String)
    ensures
        r@ == thumbnail_insert_sql_text(metas@),
{
    let regular = column_names_of_kind(metas, false);
    let blobs = column_names_of_kind(metas, true);
    let regular_sql = join(&regular, ", ");
    let blob_sql = join(&blobs, ", ");
    let marks = placeholder_list(metas.len());
    let head = concat3("INSERT INTO image_thumbnail (", regular_sql.as_str(), ",");
    let mid = concat3(head.as_str(), blob_sql.as_str(), ") VALUES (");
    concat3(mid.as_str(), marks.as_str(), ");")
}

/// `{column} = ?` for each column, separated by `, `.
pub open spec fn assignments(columns: Seq<Seq<char>>) -> Seq<char> {
    joined(columns.map_values(|c: Seq<char>| c + " = ?"@), ", "@)
}

/// The statement that rewrites the IPTC columns `columns` of one image and stamps the
/// time of the change.
pub open spec fn iptc_update_sql_text(columns: Seq<Seq<char>>) -> Seq<char> {
    "\n        UPDATE image_iptc\n        SET "@ + assignments(columns)
        + ", updated_at = CURRENT_TIMESTAMP\n        WHERE image_path = ?;\n    "@
}

/// The statement that updates the IPTC columns `column_names` of the image whose path
/// is bound last.
pub fn iptc_update_sql(column_names: &Vec<String>) -> (r: String)
    ensures
        r@ == iptc_update_sql_text(views(column_names@)),
{
    let mut parts: Vec<String> = Vec::new();
    let n = column_names.len();
    for i in 0..n
        invariant
            n == column_names@.len(),
            views(parts@) == views(column_names@.take(i as int)).map_values(
                |c: Seq<char>| c + " = ?"@,
            ),
    {
        let ghost before = parts@;
        parts.push(concat2(column_names[i].as_str(), " = ?"));
        assert(views(parts@) == views(before).push(column_names@[i as int]@ + " = ?"@));
        assert(views(column_names@.take(i + 1)) == views(column_names@.take(i as int)).push(
            column_names@[i as int]@,
        ));
        assert(views(column_names@.take(i + 1)).map_values(|c: Seq<char>| c + " = ?"@) == views(
            column_names@.take(i as int),
        ).map_values(|c: Seq<char>| c + " = ?"@).push(column_names@[i as int]@ + " = ?"@));
    }
    assert(column_names@.take(n as int) == column_names@);
    let set = join(&parts, ", ");
    concat3(
        "\n        UPDATE image_iptc\n        SET ",
        set.as_str(),
        ", updated_at = CURRENT_TIMESTAMP\n        WHERE image_path = ?;\n    ",
    )
}

/// The query for the thumbnails of one image whose side compares with `operator` to a
/// bound value, with the optional order and limit.
pub open spec fn width_length_sql_text(operator: Seq<char>, order_by: Option<Seq<char>>, limit: Option<usize>) -> Seq<char> {
    "SELECT * FROM image_thumbnail WHERE image_path = ? AND width_and_length "@ + operator + " ?"@
        + match order_by {
        Some(o) => " ORDER BY "@ + o,
        None => Seq::empty(),
    } + match limit {
        Some(l) => " LIMIT "@ + decimal_digits(l as nat),
        None => Seq::empty(),
    }
}

/// The query for the thumbnails of the image bound first whose side compares with
/// `operator` to the size bound second, ordered by `order_by` and limited to `limit`
/// rows when they are given.
pub fn width_length_sql(operator: &str, order_by: Option<&str>, limit: Option<usize>) -> (r: String)
    ensures
        r@ == width_length_sql_text(operator@, opt_str_view(order_by), limit),
{
    let order_sql = match order_by {
        Some(o) => concat2(" ORDER BY ", o),
        None => String::new(),
    };
    let limit_sql = match limit {
        Some(l) => {
            let digits = format_u64(l as u64);
            concat2(" LIMIT ", digits.as_str())
        },
        None => String::new(),
    };
    let head = concat3("SELECT * FROM image_thumbnail WHERE image_path = ? AND width_and_length ", operator, " ?");
    concat3(head.as_str(), order_sql.as_str(), limit_sql.as_str())
}

/// The view of an optional string slice.
pub open spec fn opt_str_view(o: Option<&str>) -> Option<Seq<char>> {
    match o {
        Some(s) => Some(s@),
        None => None,
    }
}

/// Judges a change that should have touched one row: success when `rows` is 1, and
/// otherwise the message `SQL {action} returned {rows} rows`.
pub fn check_rows_affected(action: &str, rows: u64) -> (r: Result<(), String>)
    ensures
        r is Ok <==> rows == 1,
        match r {
            Ok(_) => true,
            Err(m) => m@ == "SQL "@ + action@ + " returned "@ + decimal_digits(rows as nat) + " rows"@,
        },
{
    if rows == 1 {
        Ok(())
    } else {
        let count = format_u64(rows);
        let head = concat3("SQL ", action, " returned ");
        Err(concat3(head.as_str(), count.as_str(), " rows"))
    }
}

} // verus!
