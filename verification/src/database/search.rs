//! Building the SQL text and parameter list of an image search.

use vstd::prelude::*;

use crate::models::image::{copy_metas, ImageFieldMeta};
use crate::str_map::{Entries, StrMap};
use crate::text::{
    clone_strings, concat2, decimal, format_i64, joined, split_char, split_on, trim,
    trim_brackets, trim_square_brackets, trim_ws, views,
};

verus! {

/// A table to join into a search, with the columns to select from it.
pub struct SearchBuilderImageFeature {
    pub table_name: String,
    pub columns: Vec<ImageFieldMeta>,
}

impl SearchBuilderImageFeature {
    /// A feature for table `name` selecting copies of `columns`.
    pub fn from_meta(name: &str, columns: &[ImageFieldMeta]) -> (r: Self)
        ensures
            r.table_name@ == name@,
            r.columns@ == columns@,
    {
        Self { table_name: String::from_str(name), columns: copy_metas(columns) }
    }
}

/// The state of a [`SearchBuilder`] as character sequences.
pub struct SearchSpec {
    pub select_clause_params: Seq<Seq<char>>,
    pub criteria: Seq<(Seq<char>, Entries)>,
    pub select_columns: Seq<Seq<char>>,
    pub order_by: Option<Seq<char>>,
    pub limit: Option<i32>,
    pub offset: Option<i32>,
    pub joins: Seq<Seq<char>>,
    pub base_table: Seq<char>,
    pub base_table_query: Option<Seq<char>>,
    pub base_table_query_select_clause_params: Seq<Seq<char>>,
    pub path_filter: Option<Seq<Seq<char>>>,
}

/// The views of a list of criteria groups: an operator and its conditions.
pub open spec fn criteria_views(v: Seq<(String, StrMap)>) -> Seq<(Seq<char>, Entries)> {
    v.map_values(|c: (String, StrMap)| (c.0@, c.1@))
}

/// The column descriptions of the image tables, as each table's metadata lists them.
pub struct TableMetas {
    pub image_paths: Vec<ImageFieldMeta>,
    pub image_similarity_single: Vec<ImageFieldMeta>,
    pub image_exif: Vec<ImageFieldMeta>,
    pub image_brightness: Vec<ImageFieldMeta>,
    pub image_ocr_text: Vec<ImageFieldMeta>,
    pub image_aspect_ratio: Vec<ImageFieldMeta>,
    pub image_iptc: Vec<ImageFieldMeta>,
    pub image_xmp: Vec<ImageFieldMeta>,
}

/// The columns of the base table `base`: those of `image_paths` for it, and otherwise
/// those of a single `image_similarity` row.
pub open spec fn base_table_meta(base: Seq<char>, m: TableMetas) -> Seq<ImageFieldMeta> {
    if base == "image_paths"@ {
        m.image_paths@
    } else {
        m.image_similarity_single@
    }
}

/// The column references of the tables joined by default, each without its first column.
pub open spec fn default_tables_column_refs(m: TableMetas) -> Seq<Seq<char>> {
    column_refs(m.image_exif@.skip(1)) + column_refs(m.image_brightness@.skip(1)) + column_refs(
        m.image_ocr_text@.skip(1),
    ) + column_refs(m.image_aspect_ratio@.skip(1)) + column_refs(m.image_iptc@.skip(1))
        + column_refs(m.image_xmp@.skip(1))
}

/// The joins of the tables joined by default next to `base`.
pub open spec fn default_tables_joins(base: Seq<char>) -> Seq<Seq<char>> {
    seq![
        join_clause(base, "image_exif"@),
        join_clause(base, "image_brightness"@),
        join_clause(base, "image_ocr_text"@),
        join_clause(base, "image_aspect_ratio"@),
        join_clause(base, "image_iptc"@),
        join_clause(base, "image_xmp"@),
    ]
}

/// Accumulates the pieces of a `SELECT` statement over the image tables.
pub struct SearchBuilder {
    select_clause_params: Vec<String>,
    criteria: Vec<(String, StrMap)>,
    select_columns: Vec<String>,
    order_by: Option<String>,
    limit: Option<i32>,
    offset: Option<i32>,
    joins: Vec<String>,
    base_table: &'static str,
    base_table_query: Option<String>,
    base_table_query_select_clause_params: Vec<String>,
    path_filter: Option<Vec<String>>,
}

impl View for SearchBuilder {
    type V = SearchSpec;

    closed spec fn view(&self) -> SearchSpec {
        SearchSpec {
            select_clause_params: views(self.select_clause_params@),
            criteria: criteria_views(self.criteria@),
            select_columns: views(self.select_columns@),
            order_by: match self.order_by {
                Some(s) => Some(s@),
                None => None,
            },
            limit: self.limit,
            offset: self.offset,
            joins: views(self.joins@),
            base_table: self.base_table@,
            base_table_query: match self.base_table_query {
                Some(s) => Some(s@),
                None => None,
            },
            base_table_query_select_clause_params: views(
                self.base_table_query_select_clause_params@,
            ),
            path_filter: match self.path_filter {
                Some(p) => Some(views(p@)),
                None => None,
            },
        }
    }
}

// ---------------------------------------------------------------------------
// What the SQL text is made of
// ---------------------------------------------------------------------------

/// The column reference `[table].[name]` of a column.
pub open spec fn column_ref(c: ImageFieldMeta) -> Seq<char> {
    "["@ + c.table_name@ + "].["@ + c.name@ + "]"@
}

/// The column references of `cols`, in order.
pub open spec fn column_refs(cols: Seq<ImageFieldMeta>) -> Seq<Seq<char>> {
    cols.map_values(|c: ImageFieldMeta| column_ref(c))
}

/// The join that brings `table` in next to `base` on the image path.
pub open spec fn join_clause(base: Seq<char>, table: Seq<char>) -> Seq<char> {
    "LEFT JOIN "@ + table + " ON "@ + base + ".image_path = "@ + table + ".image_path"@
}

/// The column references of all the tables of `ts`, table after table.
pub open spec fn tables_column_refs(ts: Seq<SearchBuilderImageFeature>) -> Seq<Seq<char>>
    decreases ts.len(),
{
    if ts.len() == 0 {
        Seq::empty()
    } else {
        tables_column_refs(ts.drop_last()) + column_refs(ts.last().columns@)
    }
}

/// The joins for the tables of `ts` next to `base`.
pub open spec fn tables_joins(base: Seq<char>, ts: Seq<SearchBuilderImageFeature>) -> Seq<Seq<char>> {
    ts.map_values(|t: SearchBuilderImageFeature| join_clause(base, t.table_name@))
}

/// The conditions of one group, each written as ` {op} {condition}`, for the
/// conditions whose value is not empty.
pub open spec fn group_inner(op: Seq<char>, g: Entries) -> Seq<char>
    decreases g.len(),
{
    if g.len() == 0 {
        Seq::empty()
    } else {
        group_inner(op, g.drop_last()) + if g.last().1.len() > 0 {
            " "@ + op + " "@ + g.last().0
        } else {
            Seq::empty()
        }
    }
}

/// The non-empty values of one group, in order.
pub open spec fn group_values(g: Entries) -> Seq<Seq<char>>
    decreases g.len(),
{
    if g.len() == 0 {
        Seq::empty()
    } else {
        group_values(g.drop_last()) + if g.last().1.len() > 0 {
            seq![g.last().1]
        } else {
            Seq::empty()
        }
    }
}

/// `inner` without the ` {op} ` in front of its first condition, when it holds more
/// than that.
pub open spec fn strip_leading_op(op: Seq<char>, inner: Seq<char>) -> Seq<char> {
    if inner.len() > op.len() + 2 {
        inner.skip((op.len() + 2) as int)
    } else {
        inner
    }
}

/// One group of conditions as SQL: `(` the conditions joined by the operator `)`.
pub open spec fn group_sql(op: Seq<char>, g: Entries) -> Seq<char> {
    "("@ + strip_leading_op(op, group_inner(op, g)) + ")"@
}

/// The SQL of every non-empty group of `cs`, in order.
pub open spec fn criteria_parts(cs: Seq<(Seq<char>, Entries)>) -> Seq<Seq<char>>
    decreases cs.len(),
{
    if cs.len() == 0 {
        Seq::empty()
    } else {
        criteria_parts(cs.drop_last()) + if cs.last().1.len() > 0 {
            seq![group_sql(cs.last().0, cs.last().1)]
        } else {
            Seq::empty()
        }
    }
}

/// The parameters of all the groups of `cs`, group after group.
pub open spec fn criteria_values(cs: Seq<(Seq<char>, Entries)>) -> Seq<Seq<char>>
    decreases cs.len(),
{
    if cs.len() == 0 {
        Seq::empty()
    } else {
        criteria_values(cs.drop_last()) + group_values(cs.last().1)
    }
}

/// `n` question marks separated by `, `.
pub open spec fn placeholders(n: nat) -> Seq<char> {
    joined(Seq::new(n, |i: int| "?"@), ", "@)
}

/// The paths a search is restricted to, when it is restricted to some.
pub open spec fn active_paths(b: SearchSpec) -> Seq<Seq<char>> {
    match b.path_filter {
        Some(p) => p,
        None => Seq::empty(),
    }
}

/// The conditions of the `WHERE` clause: the path restriction, then the criteria.
pub open spec fn where_parts(b: SearchSpec) -> Seq<Seq<char>> {
    let paths = active_paths(b);
    let parts = criteria_parts(b.criteria);
    (if paths.len() > 0 {
        seq![b.base_table + ".image_path IN ("@ + placeholders(paths.len()) + ")"@]
    } else {
        Seq::empty()
    }) + (if parts.len() > 0 {
        seq![joined(parts, " AND "@)]
    } else {
        Seq::empty()
    })
}

/// The `WHERE` clause, with a space in front, or nothing when there is no condition.
pub open spec fn where_sql(b: SearchSpec) -> Seq<char> {
    let parts = where_parts(b);
    if parts.len() > 0 {
        " WHERE "@ + joined(parts, " AND "@)
    } else {
        Seq::empty()
    }
}

/// The parameters the `WHERE` clause binds, in the order of its placeholders.
pub open spec fn where_params(b: SearchSpec) -> Seq<Seq<char>> {
    let paths = active_paths(b);
    let parts = criteria_parts(b.criteria);
    paths + (if parts.len() > 0 {
        criteria_values(b.criteria)
    } else {
        Seq::empty()
    })
}


/// Every group of conditions must hold: with two non-empty groups and no path
/// restriction, the `WHERE` clause is ` WHERE (first group) AND (second group)`.
pub proof fn lemma_groups_all_hold(b: SearchSpec, op1: Seq<char>, g1: Entries, op2: Seq<char>, g2: Entries)
    requires
        b.path_filter is None,
        b.criteria == seq![(op1, g1), (op2, g2)],
        g1.len() > 0,
        g2.len() > 0,
    ensures
        where_sql(b) == " WHERE "@ + group_sql(op1, g1) + " AND "@ + group_sql(op2, g2),
{
    let cs = b.criteria;
    assert(cs.drop_last() == seq![(op1, g1)]);
    assert(cs.drop_last().drop_last() == Seq::<(Seq<char>, Entries)>::empty());
    let parts = criteria_parts(cs);
    let p1 = group_sql(op1, g1);
    let p2 = group_sql(op2, g2);
    assert(cs.drop_last().last() == (op1, g1));
    assert(cs.last() == (op2, g2));
    assert(criteria_parts(cs.drop_last().drop_last()) == Seq::<Seq<char>>::empty());
    assert(criteria_parts(cs.drop_last()) =~= seq![p1]);
    assert(parts =~= seq![p1, p2]);
    assert(parts.drop_last() =~= seq![p1]);
    assert(joined(seq![p1], " AND "@) == p1);
    let all = joined(parts, " AND "@);
    assert(all == p1 + " AND "@ + p2);
    assert(where_parts(b) == seq![all]);
    assert(where_parts(b).len() == 1);
}

/// The path restriction and a group of conditions must both hold: with paths and one
/// non-empty group, the `WHERE` clause is ` WHERE {base}.image_path IN (?, ..) AND
/// (group)`, with one `?` per path.
pub proof fn lemma_paths_and_group_both_hold(b: SearchSpec, op: Seq<char>, g: Entries)
    requires
        b.path_filter matches Some(p) && p.len() > 0,
        b.criteria == seq![(op, g)],
        g.len() > 0,
    ensures
        where_sql(b) == " WHERE "@ + b.base_table + ".image_path IN ("@ + placeholders(
            active_paths(b).len(),
        ) + ")"@ + " AND "@ + group_sql(op, g),
{
    let cs = b.criteria;
    assert(cs.drop_last() == Seq::<(Seq<char>, Entries)>::empty());
    let parts = criteria_parts(cs);
    assert(cs.last() == (op, g));
    assert(criteria_parts(cs.drop_last()) == Seq::<Seq<char>>::empty());
    assert(parts =~= seq![group_sql(op, g)]);
    assert(joined(parts, " AND "@) == group_sql(op, g));
    let path_part = b.base_table + ".image_path IN ("@ + placeholders(active_paths(b).len()) + ")"@;
    let wp = where_parts(b);
    assert(wp =~= seq![path_part, group_sql(op, g)]);
    assert(wp.drop_last() =~= seq![path_part]);
    assert(joined(seq![path_part], " AND "@) == path_part);
    assert(joined(wp, " AND "@) == path_part + " AND "@ + group_sql(op, g));
}

/// The select list: the selected columns joined by `, `, or `*` when none is.
pub open spec fn select_list(cols: Seq<Seq<char>>) -> Seq<char> {
    if cols.len() == 0 {
        "*"@
    } else {
        joined(cols, ", "@)
    }
}

/// Each join on a line of its own, indented by two spaces.
pub open spec fn joins_sql(joins: Seq<Seq<char>>) -> Seq<char>
    decreases joins.len(),
{
    if joins.len() == 0 {
        Seq::empty()
    } else {
        joins_sql(joins.drop_last()) + "\n  "@ + joins.last()
    }
}

/// `prefix` followed by the decimal form of `n`, or nothing when `n` is absent.
pub open spec fn optional_number(prefix: Seq<char>, n: Option<i32>) -> Seq<char> {
    match n {
        Some(v) => prefix + decimal(v as int),
        None => Seq::empty(),
    }
}

/// `SELECT {columns} FROM {nested query}{base table}` followed by the joins.
pub open spec fn select_clause(b: SearchSpec) -> Seq<char> {
    let nested = match b.base_table_query {
        Some(q) => q,
        None => Seq::empty(),
    };
    "SELECT "@ + select_list(b.select_columns) + " FROM "@ + nested + b.base_table + joins_sql(
        b.joins,
    )
}

/// The `ORDER BY` clause, or nothing.
pub open spec fn order_sql(b: SearchSpec) -> Seq<char> {
    match b.order_by {
        Some(o) => "ORDER BY "@ + o,
        None => Seq::empty(),
    }
}

/// The whole statement: select clause, where clause, order, limit and offset,
/// separated by single spaces.
pub open spec fn sql_text(b: SearchSpec) -> Seq<char> {
    select_clause(b) + " "@ + where_sql(b) + " "@ + order_sql(b) + " "@ + optional_number(
        "LIMIT "@,
        b.limit,
    ) + " "@ + optional_number("OFFSET "@, b.offset)
}

/// The parameters of the statement in placeholder order: the select clause's own,
/// those of the nested base query, then those of the `WHERE` clause.
pub open spec fn sql_params(b: SearchSpec) -> Seq<Seq<char>> {
    b.select_clause_params + b.base_table_query_select_clause_params + where_params(b)
}

/// The table named by a selected column `[table].[column]`: the text before its one
/// dot, without brackets and surrounding white space, when that is not empty.
pub open spec fn table_of_column(c: Seq<char>) -> Option<Seq<char>> {
    let parts = split_on(c, '.');
    if parts.len() == 2 {
        let t = trim_ws(trim_brackets(parts[0]));
        if t.len() > 0 {
            Some(t)
        } else {
            None
        }
    } else {
        None
    }
}

/// The tables named by the selected columns `cols`, in order.
pub open spec fn tables_of_columns(cols: Seq<Seq<char>>) -> Seq<Seq<char>>
    decreases cols.len(),
{
    if cols.len() == 0 {
        Seq::empty()
    } else {
        tables_of_columns(cols.drop_last()) + match table_of_column(cols.last()) {
            Some(t) => seq![t],
            None => Seq::empty(),
        }
    }
}

proof fn lemma_views_push(v: Seq<String>, x: String)
    ensures
        views(v.push(x)) == views(v).push(x@),
{
    assert(views(v.push(x)) =~= views(v).push(x@));
}

proof fn lemma_views_take_push(v: Seq<String>, i: int)
    requires
        0 <= i < v.len(),
    ensures
        views(v.take(i + 1)) == views(v.take(i)).push(v[i]@),
{
    assert(v.take(i + 1) == v.take(i).push(v[i]));
    lemma_views_push(v.take(i), v[i]);
}

/// Appends copies of the strings of `src` to `dst`.
fn push_copies(dst: &mut Vec<String>, src: &Vec<String>)
    ensures
        views(final(dst)@) == views(old(dst)@) + views(src@),
{
    let ghost start = views(dst@);
    for i in 0..src.len()
        invariant
            views(dst@) == start + views(src@.take(i as int)),
    {
        proof {
            lemma_views_push(dst@, src@[i as int]);
            lemma_views_take_push(src@, i as int);
        }
        dst.push(src[i].clone());
    }
    assert(src@.take(src@.len() as int) == src@);
}

/// `n` question marks separated by `, `.
pub(crate) fn placeholder_list(n: usize) -> (r: String)
    ensures
        r@ == placeholders(n as nat),
{
    let mut r = String::new();
    for i in 0..n
        invariant
            r@ == joined(Seq::new(i as nat, |k: int| "?"@), ", "@),
    {
        assert(Seq::new((i + 1) as nat, |k: int| "?"@).drop_last() == Seq::new(
            i as nat,
            |k: int| "?"@,
        ));
        if i > 0 {
            r.append(", ");
        }
        r.append("?");
    }
    r
}

/// The SQL of one group of conditions; appends its non-empty values to `values`.
fn group_clause(op: &String, g: &StrMap, values: &mut Vec<String>) -> (r: String)
    ensures
        r@ == group_sql(op@, g@),
        views(final(values)@) == views(old(values)@) + group_values(g@),
{
    let ghost start = views(values@);
    let mut inner = String::new();
    let n = g.len();
    for i in 0..n
        invariant
            n == g@.len(),
            inner@ == group_inner(op@, g@.take(i as int)),
            views(values@) == start + group_values(g@.take(i as int)),
    {
        let v = g.value_at(i);
        assert(g@.take(i + 1).drop_last() == g@.take(i as int));
        assert(g@.take(i + 1).last() == g@[i as int]);
        if !v.as_str().is_empty() {
            inner.append(" ");
            inner.append(op.as_str());
            inner.append(" ");
            inner.append(g.key_at(i).as_str());
            let copy = v.clone();
            proof {
                lemma_views_push(values@, copy);
            }
            values.push(copy);
        }
    }
    assert(g@.take(n as int) == g@);
    let total = inner.unicode_len();
    let op_len = op.unicode_len();
    let stripped = if total > op_len && total - op_len > 2 {
        crate::text::owned(inner.as_str().substring_char(op_len + 2, total))
    } else {
        inner
    };
    crate::text::concat3("(", stripped.as_str(), ")")
}

fn optional_number_text(prefix: &str, n: Option<i32>) -> (r: String)
    ensures
        r@ == optional_number(prefix@, n),
{
    match n {
        Some(v) => {
            let digits = format_i64(v as i64);
            concat2(prefix, digits.as_str())
        },
        None => String::new(),
    }
}

impl SearchBuilder {
    /// An empty search over `image_paths`: all columns, no condition, no order, no limit.
    pub fn new() -> (r: Self)
        ensures
            r@ == (SearchSpec {
                select_clause_params: Seq::empty(),
                criteria: Seq::empty(),
                select_columns: Seq::empty(),
                order_by: None,
                limit: None,
                offset: None,
                joins: Seq::empty(),
                base_table: "image_paths"@,
                base_table_query: None,
                base_table_query_select_clause_params: Seq::empty(),
                path_filter: None,
            }),
    {
        let r = Self {
            criteria: Vec::new(),
            select_columns: Vec::new(),
            select_clause_params: Vec::new(),
            order_by: None,
            limit: None,
            offset: None,
            joins: Vec::new(),
            base_table: "image_paths",
            base_table_query: None,
            base_table_query_select_clause_params: Vec::new(),
            path_filter: None,
        };
        assert(views(r.select_clause_params@) == Seq::<Seq<char>>::empty());
        assert(views(r.select_columns@) == Seq::<Seq<char>>::empty());
        assert(views(r.joins@) == Seq::<Seq<char>>::empty());
        assert(views(r.base_table_query_select_clause_params@) == Seq::<Seq<char>>::empty());
        assert(criteria_views(r.criteria@) == Seq::<(Seq<char>, Entries)>::empty());
        r
    }

    /// The table the search starts from.
    pub fn base_table(&self) -> (r: &'static str)
        ensures
            r@ == self@.base_table,
    {
        self.base_table
    }

    /// Starts the search from `table_name` instead.
    pub fn with_base_table(self, table_name: &'static str) -> (r: Self)
        ensures
            r@ == (SearchSpec { base_table: table_name@, ..self@ }),
    {
        let mut b = self;
        b.base_table = table_name;
        b
    }

    /// Searches within the rows of `base_query`: its statement, in parentheses, stands in
    /// front of the base table's name, which becomes the nested query's alias, and its
    /// parameters are added to the nested-query parameters.
    pub fn with_base_table_as_select(self, base_query: SearchBuilder) -> (r: Self)
        ensures
            r@ == (SearchSpec {
                base_table_query_select_clause_params: self@.base_table_query_select_clause_params
                    + sql_params(base_query@),
                base_table_query: Some("("@ + sql_text(base_query@) + ") "@),
                ..self@
            }),
    {
        let mut b = self;
        let (base_query_str, base_query_params) = base_query.build_sql();
        push_copies(&mut b.base_table_query_select_clause_params, &base_query_params);
        b.base_table_query = Some(
            crate::text::concat3("(", base_query_str.as_str(), ") "),
        );
        b
    }

    /// Replaces the criteria: groups of conditions, each with the operator that joins
    /// the conditions of the group.
    pub fn with_criteria(self, criteria: Vec<(String, StrMap)>) -> (r: Self)
        ensures
            r@ == (SearchSpec { criteria: criteria_views(criteria@), ..self@ }),
    {
        let mut b = self;
        b.criteria = criteria;
        b
    }

    /// Orders the results by `order_by`.
    pub fn with_order_by(self, order_by: &str) -> (r: Self)
        ensures
            r@ == (SearchSpec { order_by: Some(order_by@), ..self@ }),
    {
        let mut b = self;
        b.order_by = Some(String::from_str(order_by));
        b
    }

    /// Limits the results to `limit` rows from `offset` on.
    pub fn with_pagination(self, limit: i32, offset: i32) -> (r: Self)
        ensures
            r@ == (SearchSpec { limit: Some(limit), offset: Some(offset), ..self@ }),
    {
        let mut b = self;
        b.limit = Some(limit);
        b.offset = Some(offset);
        b
    }

    /// Limits the results to `limit` rows.
    pub fn with_limit(self, limit: i32) -> (r: Self)
        ensures
            r@ == (SearchSpec { limit: Some(limit), ..self@ }),
    {
        let mut b = self;
        b.limit = Some(limit);
        b
    }

    /// Skips the first `offset` rows.
    pub fn with_offset(self, offset: i32) -> (r: Self)
        ensures
            r@ == (SearchSpec { offset: Some(offset), ..self@ }),
    {
        let mut b = self;
        b.offset = Some(offset);
        b
    }

    /// Adds a join clause.
    pub fn with_join(self, join_clause: &str) -> (r: Self)
        ensures
            r@ == (SearchSpec { joins: self@.joins.push(join_clause@), ..self@ }),
    {
        let mut b = self;
        let ghost before = b.joins@;
        b.joins.push(String::from_str(join_clause));
        proof {
            lemma_views_push(before, b.joins@.last());
            assert(b.joins@ == before.push(b.joins@.last()));
        }
        b
    }

    /// Adds a parameter bound in the select clause.
    pub fn with_select_clause_param(self, param_string: String) -> (r: Self)
        ensures
            r@ == (SearchSpec {
                select_clause_params: self@.select_clause_params.push(param_string@),
                ..self@
            }),
    {
        let mut b = self;
        proof {
            lemma_views_push(b.select_clause_params@, param_string);
        }
        b.select_clause_params.push(param_string);
        b
    }

    fn push_meta_columns(&mut self, columns: &Vec<ImageFieldMeta>)
        ensures
            final(self)@ == (SearchSpec {
                select_columns: old(self)@.select_columns + column_refs(columns@),
                ..old(self)@
            }),
    {
        let ghost start = views(self.select_columns@);
        for i in 0..columns.len()
            invariant
                views(self.select_columns@) == start + column_refs(columns@.take(i as int)),
                self@ == (SearchSpec { select_columns: views(self.select_columns@), ..old(self)@ }),
        {
            let c = &columns[i];
            let mut s = crate::text::concat3("[", c.table_name.as_str(), "].[");
            s.append(c.name.as_str());
            s.append("]");
            proof {
                lemma_views_push(self.select_columns@, s);
                assert(column_refs(columns@.take(i + 1)) == column_refs(columns@.take(i as int)).push(
                    column_ref(columns@[i as int]),
                ));
            }
            self.select_columns.push(s);
        }
        assert(columns@.take(columns@.len() as int) == columns@);
    }

    /// Selects the columns `columns`, each written `[table].[name]`.
    pub fn with_field_meta_columns(self, columns: Vec<ImageFieldMeta>) -> (r: Self)
        ensures
            r@ == (SearchSpec {
                select_columns: self@.select_columns + column_refs(columns@),
                ..self@
            }),
    {
        let mut b = self;
        b.push_meta_columns(&columns);
        b
    }

    /// For each table in turn, selects its columns and left-joins it to the base table
    /// on the image path.
    pub fn with_tables(self, join_tables: Vec<SearchBuilderImageFeature>) -> (r: Self)
        ensures
            r@ == (SearchSpec {
                select_columns: self@.select_columns + tables_column_refs(join_tables@),
                joins: self@.joins + tables_joins(self@.base_table, join_tables@),
                ..self@
            }),
    {
        let mut b = self;
        let ghost start = b@;
        let base_table = b.base_table;
        for i in 0..join_tables.len()
            invariant
                base_table@ == start.base_table,
                b@ == (SearchSpec {
                    select_columns: start.select_columns + tables_column_refs(
                        join_tables@.take(i as int),
                    ),
                    joins: start.joins + tables_joins(start.base_table, join_tables@.take(i as int)),
                    ..start
                }),
        {
            let table = &join_tables[i];
            assert(join_tables@.take(i + 1).drop_last() == join_tables@.take(i as int));
            assert(join_tables@.take(i + 1).last() == join_tables@[i as int]);
            assert(tables_column_refs(join_tables@.take(i + 1)) == tables_column_refs(
                join_tables@.take(i as int),
            ) + column_refs(table.columns@));
            assert(start.select_columns + tables_column_refs(join_tables@.take(i + 1)) == (
            start.select_columns + tables_column_refs(join_tables@.take(i as int))) + column_refs(
                table.columns@,
            ));
            b.push_meta_columns(&table.columns);
            let mut join = crate::text::concat3("LEFT JOIN ", table.table_name.as_str(), " ON ");
            join.append(base_table);
            join.append(".image_path = ");
            join.append(table.table_name.as_str());
            join.append(".image_path");
            let ghost before = b.joins@;
            b.joins.push(join);
            proof {
                lemma_views_push(before, b.joins@.last());
                assert(b.joins@ == before.push(b.joins@.last()));
                assert(tables_joins(start.base_table, join_tables@.take(i + 1)) == tables_joins(
                    start.base_table,
                    join_tables@.take(i as int),
                ).push(join_clause(start.base_table, join_tables@[i as int].table_name@)));
            }
        }
        assert(join_tables@.take(join_tables@.len() as int) == join_tables@);
        b
    }

    /// Selects the base table's columns from `metas`, then joins the EXIF, brightness,
    /// OCR text, aspect ratio, IPTC and XMP tables, each without its first column (the
    /// image path, which the base table already gives).
    pub fn with_default_tables(self, metas: &TableMetas) -> (r: Self)
        requires
            self@.base_table == "image_paths"@ || self@.base_table == "image_similarity"@,
            metas.image_exif@.len() >= 1,
            metas.image_brightness@.len() >= 1,
            metas.image_ocr_text@.len() >= 1,
            metas.image_aspect_ratio@.len() >= 1,
            metas.image_iptc@.len() >= 1,
            metas.image_xmp@.len() >= 1,
        ensures
            r@ == (SearchSpec {
                select_columns: self@.select_columns + column_refs(base_table_meta(self@.base_table, *metas))
                    + default_tables_column_refs(*metas),
                joins: self@.joins + default_tables_joins(self@.base_table),
                ..self@
            }),
    {
        let base_table_meta = if crate::text::str_eq(self.base_table, "image_paths") {
            copy_metas(metas.image_paths.as_slice())
        } else {
            copy_metas(metas.image_similarity_single.as_slice())
        };
        let mut tables: Vec<SearchBuilderImageFeature> = Vec::new();
        let f = SearchBuilderImageFeature::from_meta("image_exif", &metas.image_exif.as_slice()[1..metas.image_exif.len()]);
        tables.push(f);
        let f = SearchBuilderImageFeature::from_meta("image_brightness", &metas.image_brightness.as_slice()[1..metas.image_brightness.len()]);
        tables.push(f);
        let f = SearchBuilderImageFeature::from_meta("image_ocr_text", &metas.image_ocr_text.as_slice()[1..metas.image_ocr_text.len()]);
        tables.push(f);
        let f = SearchBuilderImageFeature::from_meta("image_aspect_ratio", &metas.image_aspect_ratio.as_slice()[1..metas.image_aspect_ratio.len()]);
        tables.push(f);
        let f = SearchBuilderImageFeature::from_meta("image_iptc", &metas.image_iptc.as_slice()[1..metas.image_iptc.len()]);
        tables.push(f);
        let f = SearchBuilderImageFeature::from_meta("image_xmp", &metas.image_xmp.as_slice()[1..metas.image_xmp.len()]);
        tables.push(f);
        proof {
            let ts = tables@;
            assert(ts.len() == 6);
            assert(ts.drop_last().drop_last().drop_last().drop_last().drop_last().drop_last() == Seq::<SearchBuilderImageFeature>::empty());
            assert(tables_column_refs(ts) == default_tables_column_refs(*metas)) by {
                reveal_with_fuel(tables_column_refs, 7);
                assert(ts.drop_last().drop_last().drop_last().drop_last().drop_last() == seq![ts[0]]);
                assert(ts.drop_last().drop_last().drop_last().drop_last() == seq![ts[0], ts[1]]);
                assert(ts.drop_last().drop_last().drop_last() == seq![ts[0], ts[1], ts[2]]);
                assert(ts.drop_last().drop_last() == seq![ts[0], ts[1], ts[2], ts[3]]);
                assert(ts.drop_last() == seq![ts[0], ts[1], ts[2], ts[3], ts[4]]);
                assert(seq![ts[0]].drop_last() == Seq::<SearchBuilderImageFeature>::empty());
            }
            assert(tables_joins(self@.base_table, ts) == default_tables_joins(self@.base_table));
        }
        self.with_field_meta_columns(base_table_meta).with_tables(tables)
    }

    /// Selects the columns `columns` as they are written.
    pub fn with_select_columns(self, columns: Vec<String>) -> (r: Self)
        ensures
            r@ == (SearchSpec {
                select_columns: self@.select_columns + views(columns@),
                ..self@
            }),
    {
        let mut b = self;
        push_copies(&mut b.select_columns, &columns);
        b
    }

    /// Restricts the search to the images at `paths`.
    pub fn with_get_paths(self, paths: Vec<String>) -> (r: Self)
        ensures
            r@ == (SearchSpec { path_filter: Some(views(paths@)), ..self@ }),
    {
        let mut b = self;
        b.path_filter = Some(paths);
        b
    }

    /// The tables named by the selected columns, in the order of the columns.
    pub fn get_tables_selected(&self) -> (r: Vec<String>)
        ensures
            views(r@) == tables_of_columns(self@.select_columns),
    {
        let mut r: Vec<String> = Vec::new();
        let n = self.select_columns.len();
        for i in 0..n
            invariant
                n == self.select_columns@.len(),
                views(r@) == tables_of_columns(views(self.select_columns@.take(i as int))),
        {
            let c = &self.select_columns[i];
            proof {
                lemma_views_take_push(self.select_columns@, i as int);
                let t = views(self.select_columns@.take(i + 1));
                assert(t.drop_last() == views(self.select_columns@.take(i as int)));
            }
            let parts = split_char(c.as_str(), '.');
            if parts.len() == 2 {
                let bare = trim_square_brackets(parts[0].as_str());
                let table_name = trim(bare.as_str());
                if !table_name.as_str().is_empty() {
                    proof {
                        lemma_views_push(r@, table_name);
                    }
                    r.push(table_name);
                }
            }
        }
        assert(self.select_columns@.take(n as int) == self.select_columns@);
        r
    }

    fn build_where_clause(&self, params: &mut Vec<String>) -> (r: String)
        ensures
            r@ == where_sql(self@),
            views(final(params)@) == views(old(params)@) + where_params(self@),
    {
        let ghost cv = criteria_views(self.criteria@);
        let mut parts: Vec<String> = Vec::new();
        let mut criteria_params: Vec<String> = Vec::new();
        let n = self.criteria.len();
        for i in 0..n
            invariant
                n == self.criteria@.len(),
                cv == criteria_views(self.criteria@),
                views(parts@) == criteria_parts(cv.take(i as int)),
                views(criteria_params@) == criteria_values(cv.take(i as int)),
        {
            let op = &self.criteria[i].0;
            let group = &self.criteria[i].1;
            assert(cv.take(i + 1).drop_last() == cv.take(i as int));
            assert(cv.take(i + 1).last() == (op@, group@));
            if !group.is_empty() {
                let sql = group_clause(op, group, &mut criteria_params);
                proof {
                    lemma_views_push(parts@, sql);
                }
                parts.push(sql);
            } else {
                assert(group_values(group@) == Seq::<Seq<char>>::empty());
            }
        }
        assert(cv.take(n as int) == cv);
        let ghost start = views(params@);
        let mut conditions: Vec<String> = Vec::new();
        let mut with_paths = false;
        match &self.path_filter {
            Some(paths) => {
                if paths.len() > 0 {
                    let list = placeholder_list(paths.len());
                    let mut part = concat2(self.base_table, ".image_path IN (");
                    part.append(list.as_str());
                    part.append(")");
                    proof {
                        lemma_views_push(conditions@, part);
                    }
                    conditions.push(part);
                    push_copies(params, paths);
                    with_paths = true;
                }
            },
            None => {},
        }
        assert(views(params@) == start + active_paths(self@));
        if parts.len() > 0 {
            let all = crate::text::join(&parts, " AND ");
            proof {
                lemma_views_push(conditions@, all);
            }
            conditions.push(all);
            push_copies(params, &criteria_params);
        }
        assert(views(conditions@) == where_parts(self@));
        if conditions.len() > 0 {
            let all = crate::text::join(&conditions, " AND ");
            concat2(" WHERE ", all.as_str())
        } else {
            String::new()
        }
    }

    fn select_clause_text(&self) -> (r: String)
        ensures
            r@ == select_clause(self@),
    {
        let select_columns_sql = if self.select_columns.len() == 0 {
            String::from_str("*")
        } else {
            crate::text::join(&self.select_columns, ", ")
        };
        let mut sql = concat2("SELECT ", select_columns_sql.as_str());
        sql.append(" FROM ");
        match &self.base_table_query {
            Some(q) => sql.append(q.as_str()),
            None => {},
        }
        sql.append(self.base_table);
        let ghost with_table = sql@;
        let n = self.joins.len();
        for i in 0..n
            invariant
                n == self.joins@.len(),
                sql@ == with_table + joins_sql(views(self.joins@.take(i as int))),
        {
            proof {
                lemma_views_take_push(self.joins@, i as int);
                let t = views(self.joins@.take(i + 1));
                assert(t.drop_last() == views(self.joins@.take(i as int)));
            }
            sql.append("\n  ");
            sql.append(self.joins[i].as_str());
        }
        assert(self.joins@.take(n as int) == self.joins@);
        sql
    }

    fn order_text(&self) -> (r: String)
        ensures
            r@ == order_sql(self@),
    {
        match &self.order_by {
            Some(o) => concat2("ORDER BY ", o.as_str()),
            None => String::new(),
        }
    }

    /// The statement and its parameters, in placeholder order.
    pub fn build_sql(&self) -> (r: (String, Vec<String>))
        ensures
            r.0@ == sql_text(self@),
            views(r.1@) == sql_params(self@),
    {
        let mut params = clone_strings(&self.select_clause_params);
        push_copies(&mut params, &self.base_table_query_select_clause_params);
        let mut sql = self.select_clause_text();
        let where_clause = self.build_where_clause(&mut params);
        let order = self.order_text();
        let limit = optional_number_text("LIMIT ", self.limit);
        let offset = optional_number_text("OFFSET ", self.offset);
        sql.append(" ");
        sql.append(where_clause.as_str());
        sql.append(" ");
        sql.append(order.as_str());
        sql.append(" ");
        sql.append(limit.as_str());
        sql.append(" ");
        sql.append(offset.as_str());
        (sql, params)
    }

    /// A statement counting the rows the search finds, and its parameters.
    pub fn build_count_sql(&self) -> (r: (String, Vec<String>))
        ensures
            r.0@ == "SELECT COUNT(*) as count FROM ("@ + sql_text(self@) + ") as subquery"@,
            views(r.1@) == sql_params(self@),
    {
        let (sql, params) = self.build_sql();
        (crate::text::concat3("SELECT COUNT(*) as count FROM (", sql.as_str(), ") as subquery"), params)
    }
}

} // verus!
