//! The fields of the search form: their description, their values, and how they
//! become SQL conditions, HTML and query-string parameters.

use vstd::prelude::*;

use crate::models::image::ImageFieldMeta;
use crate::str_map::{insert_entry, lookup, remove_entry, Entries, StrMap};
use crate::text::{
    clone_opt, concat2, concat3, ends_with, join, joined, opt_view, parse_i32, parse_i32_spec,
    seq_ends_with, split_char, split_on, str_eq, trim, trim_ws, views,
};

verus! {

/// A value given for a search field.
#[derive(Debug)]
pub struct SearchParamFieldInput {
    pub name: String,
    pub value: Option<String>,
}

/// Describes a search field: its form control and the SQL column it filters on.
#[derive(Debug)]
pub struct SearchParamFieldMeta {
    pub name: String,
    pub label: String,
    pub input_type: String,
    pub placeholder: String,
    pub sql_field: Option<String>,
    pub default: Option<String>,
    pub is_regular: bool,
    pub is_advanced: bool,
    pub is_for_display: bool,
}

/// A search field with the value given for it.
#[derive(Debug)]
pub struct SearchParamFieldOutput {
    pub field_meta: SearchParamFieldMeta,
    pub field_input: SearchParamFieldInput,
}

/// A list of search fields to show in a form.
#[derive(Debug)]
pub struct SearchParamFieldList {
    pub fields: Vec<SearchParamFieldOutput>,
}

/// All the fields of a search, with their values.
#[derive(Debug)]
pub struct SearchParams {
    pub fields: Vec<SearchParamFieldOutput>,
}

impl SearchParamFieldMeta {
    /// A field-for-field copy.
    pub fn copy(&self) -> (r: Self)
        ensures
            r == *self,
    {
        SearchParamFieldMeta {
            name: self.name.clone(),
            label: self.label.clone(),
            input_type: self.input_type.clone(),
            placeholder: self.placeholder.clone(),
            sql_field: clone_opt(&self.sql_field),
            default: clone_opt(&self.default),
            is_regular: self.is_regular,
            is_advanced: self.is_advanced,
            is_for_display: self.is_for_display,
        }
    }
}

impl SearchParamFieldInput {
    /// A field-for-field copy.
    pub fn copy(&self) -> (r: Self)
        ensures
            r == *self,
    {
        SearchParamFieldInput { name: self.name.clone(), value: clone_opt(&self.value) }
    }

    /// This value together with the field it is for.
    pub fn to_output(&self, field_meta: SearchParamFieldMeta) -> (r: SearchParamFieldOutput)
        ensures
            r.field_meta == field_meta,
            r.field_input == *self,
    {
        SearchParamFieldOutput { field_meta, field_input: self.copy() }
    }

    /// Stores `field` under this input's name in `params`, when there is a value.
    pub fn add_html_param(&self, params: &mut StrMap, field: &Option<String>)
        ensures
            final(params)@ == match field {
                Some(v) => insert_entry(old(params)@, self.name@, v@),
                None => old(params)@,
            },
    {
        match field {
            Some(value) => params.insert(self.name.clone(), value.clone()),
            None => {},
        }
    }
}

impl SearchParamFieldOutput {
    /// A field-for-field copy.
    pub fn copy(&self) -> (r: Self)
        ensures
            r == *self,
    {
        SearchParamFieldOutput {
            field_meta: self.field_meta.copy(),
            field_input: self.field_input.copy(),
        }
    }
}

// ---------------------------------------------------------------------------
// Specifications
// ---------------------------------------------------------------------------

/// The extra attributes of a form control of type `input_type`.
pub open spec fn other_attributes(input_type: Seq<char>) -> Seq<char> {
    if input_type == "number"@ {
        "step=\"any\""@
    } else {
        ""@
    }
}

/// The HTML form group of a field: a label and an input holding the field's value
/// (empty when there is none).
pub open spec fn field_html(f: SearchParamFieldOutput) -> Seq<char> {
    let m = f.field_meta;
    let value = match f.field_input.value {
        Some(v) => v@,
        None => ""@,
    };
    "<div class=\"form-group\">\n                <label for=\""@ + m.name@ + "\">"@ + m.label@
        + "</label>\n                <input type=\""@ + m.input_type@ + "\" id=\""@ + m.name@
        + "\" name=\""@ + m.name@ + "\" placeholder=\""@ + m.placeholder@ + "\" value=\""@ + value
        + "\" "@ + other_attributes(m.input_type@) + "/>\n            </div>"@
}

/// The HTML of each field of `fs`, in order.
pub open spec fn fields_html(fs: Seq<SearchParamFieldOutput>) -> Seq<Seq<char>> {
    fs.map_values(|f: SearchParamFieldOutput| field_html(f))
}

/// The SQL comparison a field filters with, when it has a SQL column: `>=` for a
/// `_min` number or date, `<=` for a `_max` one, `=` for other numbers and dates,
/// `LIKE` for text, and `=` for anything else.
pub open spec fn comparison_operator(f: SearchParamFieldOutput) -> Option<Seq<char>> {
    let m = f.field_meta;
    if m.sql_field is None {
        None
    } else if m.input_type@ == "number"@ || m.input_type@ == "date"@ {
        if seq_ends_with(m.name@, "_min"@) {
            Some(">="@)
        } else if seq_ends_with(m.name@, "_max"@) {
            Some("<="@)
        } else {
            Some("="@)
        }
    } else if m.input_type@ == "text"@ {
        Some("LIKE"@)
    } else {
        Some("="@)
    }
}

/// The field's value, or its default when no value was given.
pub open spec fn value_or_default(f: SearchParamFieldOutput) -> Option<Seq<char>> {
    match f.field_input.value {
        Some(v) => Some(v@),
        None => opt_view(f.field_meta.default),
    }
}

/// `m` with the field's SQL condition added: `{column} {operator} ?` mapped to the
/// value (wrapped in `%` for `LIKE`), when the field has a column and a non-empty
/// value or default.
pub open spec fn with_sql_condition(f: SearchParamFieldOutput, m: Entries) -> Entries {
    match (f.field_meta.sql_field, comparison_operator(f), value_or_default(f)) {
        (Some(column), Some(op), Some(v)) => if v.len() > 0 {
            insert_entry(
                m,
                column@ + " "@ + op + " ?"@,
                if op == "LIKE"@ {
                    "%"@ + v + "%"@
                } else {
                    v
                },
            )
        } else {
            m
        },
        _ => m,
    }
}

/// Whether a field counts as left at its default: its value equals its default, its
/// value is empty and it has no default, or it has no value and an empty default.
pub open spec fn left_at_default(f: SearchParamFieldOutput) -> bool {
    match f.field_input.value {
        Some(v) => match f.field_meta.default {
            Some(d) => v@ == d@,
            None => v@.len() == 0,
        },
        None => match f.field_meta.default {
            Some(d) => d@.len() == 0,
            None => false,
        },
    }
}

/// The value of the first field named `name` that is not left at its default.
pub open spec fn given_value(fs: Seq<SearchParamFieldOutput>, name: Seq<char>) -> Option<Seq<char>>
    decreases fs.len(),
{
    if fs.len() == 0 {
        None
    } else if !left_at_default(fs[0]) && fs[0].field_meta.name@ == name {
        opt_view(fs[0].field_input.value)
    } else {
        given_value(fs.drop_first(), name)
    }
}

/// The value of the first field named `name`, or its default when the value is
/// missing or empty.
pub open spec fn value_or_default_named(fs: Seq<SearchParamFieldOutput>, name: Seq<char>) -> Option<
    Seq<char>,
>
    decreases fs.len(),
{
    if fs.len() == 0 {
        None
    } else if fs[0].field_meta.name@ == name {
        match fs[0].field_input.value {
            Some(v) => if v@.len() == 0 {
                opt_view(fs[0].field_meta.default)
            } else {
                Some(v@)
            },
            None => opt_view(fs[0].field_meta.default),
        }
    } else {
        value_or_default_named(fs.drop_first(), name)
    }
}

/// The SQL conditions of the fields of `fs`, added one field after the other to `m`.
pub open spec fn sql_conditions(fs: Seq<SearchParamFieldOutput>, m: Entries) -> Entries
    decreases fs.len(),
{
    if fs.len() == 0 {
        m
    } else {
        with_sql_condition(fs.last(), sql_conditions(fs.drop_last(), m))
    }
}

/// The group that searches `pattern` in the SQL column of every text field of `fs`.
pub open spec fn text_search_group(fs: Seq<SearchParamFieldOutput>, pattern: Seq<char>) -> Entries
    decreases fs.len(),
{
    if fs.len() == 0 {
        Seq::empty()
    } else {
        let m = text_search_group(fs.drop_last(), pattern);
        let f = fs.last();
        match f.field_meta.sql_field {
            Some(column) => if f.field_meta.input_type@ == "text"@ {
                insert_entry(m, column@ + " LIKE ?"@, pattern)
            } else {
                m
            },
            None => m,
        }
    }
}

/// The query-string parameters of the fields of `fs` that are not left at their
/// default: each field's value under its input name.
pub open spec fn html_params(fs: Seq<SearchParamFieldOutput>) -> Entries
    decreases fs.len(),
{
    if fs.len() == 0 {
        Seq::empty()
    } else {
        let m = html_params(fs.drop_last());
        let f = fs.last();
        if left_at_default(f) {
            m
        } else {
            match f.field_input.value {
                Some(v) => insert_entry(m, f.field_input.name@, v@),
                None => m,
            }
        }
    }
}

/// `label: value` for each field of `fs` that is not for display only and has a value.
pub open spec fn described_fields(fs: Seq<SearchParamFieldOutput>) -> Seq<Seq<char>>
    decreases fs.len(),
{
    if fs.len() == 0 {
        Seq::empty()
    } else {
        let r = described_fields(fs.drop_last());
        let f = fs.last();
        if !f.field_meta.is_for_display && f.field_input.value is Some {
            r.push(f.field_meta.label@ + ": "@ + f.field_input.value->Some_0@)
        } else {
            r
        }
    }
}

/// The index of the first field of `fs` whose description is named `name`, or -1.
pub open spec fn field_index(fs: Seq<SearchParamFieldOutput>, name: Seq<char>) -> int {
    if exists|i: int| 0 <= i < fs.len() && #[trigger] fs[i].field_meta.name@ == name {
        choose|i: int|
            0 <= i < fs.len() && fs[i].field_meta.name@ == name && forall|j: int|
                0 <= j < i ==> #[trigger] fs[j].field_meta.name@ != name
    } else {
        -1
    }
}

/// `after` is `before` with the field named `name` given the value `value` and moved to
/// the end; or `before` itself when no field has that name.
pub open spec fn field_set(
    before: Seq<SearchParamFieldOutput>,
    after: Seq<SearchParamFieldOutput>,
    name: Seq<char>,
    value: Option<String>,
) -> bool {
    let i = field_index(before, name);
    if i >= 0 {
        &&& after.len() == before.len()
        &&& after.take(after.len() - 1) == before.remove(i)
        &&& after.last().field_meta == before[i].field_meta
        &&& after.last().field_input.name@ == name
        &&& after.last().field_input.value == value
    } else {
        after == before
    }
}

/// When only the last field of `fs` is named `name`, its value, or its default when
/// the value is missing or empty, is the one read for `name`.
proof fn lemma_value_of_last(fs: Seq<SearchParamFieldOutput>, name: Seq<char>)
    requires
        fs.len() > 0,
        fs.last().field_meta.name@ == name,
        forall|j: int| 0 <= j < fs.len() - 1 ==> #[trigger] fs[j].field_meta.name@ != name,
    ensures
        value_or_default_named(fs, name) == value_or_default_named(seq![fs.last()], name),
    decreases fs.len(),
{
    if fs.len() > 1 {
        let rest = fs.drop_first();
        assert forall|j: int| 0 <= j < rest.len() - 1 implies #[trigger] rest[j].field_meta.name@ != name by {
            assert(rest[j] == fs[j + 1]);
        }
        assert(fs[0].field_meta.name@ != name);
        lemma_value_of_last(rest, name);
    } else {
        assert(fs == seq![fs.last()]);
    }
}

/// A value written with `set_field_value` into the only field of its name is the value
/// read back for that name, as `get_limit` reads it, when it is not empty.
pub proof fn lemma_value_after_set(
    before: Seq<SearchParamFieldOutput>,
    after: Seq<SearchParamFieldOutput>,
    name: Seq<char>,
    v: String,
)
    requires
        field_index(before, name) >= 0,
        forall|j: int|
            0 <= j < before.len() && j != field_index(before, name) ==> #[trigger] before[j].field_meta.name@
                != name,
        field_set(before, after, name, Some(v)),
        v@.len() > 0,
    ensures
        value_or_default_named(after, name) == Some(v@),
{
    let i = field_index(before, name);
    let kept = before.remove(i);
    assert forall|j: int| 0 <= j < after.len() - 1 implies #[trigger] after[j].field_meta.name@ != name by {
        assert(after[j] == after.take(after.len() - 1)[j]);
        if j < i {
            assert(kept[j] == before[j]);
        } else {
            assert(kept[j] == before[j + 1]);
        }
    }
    lemma_value_of_last(after, name);
}

/// A page size written with `set_field_value` as the decimal text of `n`, into the only
/// field named `limit`, is read back as `n` by `get_limit`.
pub proof fn lemma_limit_after_set(
    before: Seq<SearchParamFieldOutput>,
    after: Seq<SearchParamFieldOutput>,
    v: String,
    n: i32,
)
    requires
        field_index(before, "limit"@) >= 0,
        forall|j: int|
            0 <= j < before.len() && j != field_index(before, "limit"@) ==> #[trigger] before[j].field_meta.name@
                != "limit"@,
        field_set(before, after, "limit"@, Some(v)),
        v@ == crate::text::decimal(n as int),
    ensures
        (match value_or_default_named(after, "limit"@) {
            Some(x) => parse_i32_spec(x),
            None => None,
        }) == Some(n),
{
    crate::text::lemma_parse_decimal(n);
    lemma_value_after_set(before, after, "limit"@, v);
}

/// Whether `fs` are the fields described by `metas`, in order, each given under its
/// own name.
pub open spec fn fields_of(fs: Seq<SearchParamFieldOutput>, metas: Seq<SearchParamFieldMeta>) -> bool {
    &&& fs.len() == metas.len()
    &&& forall|i: int|
        0 <= i < fs.len() ==> (#[trigger] fs[i]).field_meta == metas[i] && fs[i].field_input.name@
            == metas[i].name@
}

/// Whether no two of `metas` have the same name.
pub open spec fn distinct_names(metas: Seq<SearchParamFieldMeta>) -> bool {
    forall|i: int, j: int|
        0 <= i < metas.len() && 0 <= j < metas.len() && i != j ==> (#[trigger] metas[i]).name@ != (
        #[trigger] metas[j]).name@
}

/// What a search gives for the field `f`: its value, unless it is left at its default.
pub open spec fn given_by(f: SearchParamFieldOutput) -> Option<Seq<char>> {
    if left_at_default(f) {
        None
    } else {
        opt_view(f.field_input.value)
    }
}

/// The query-string parameters of fields under names of their own hold, for each
/// field, what the search gives for it, and nothing under other names.
proof fn lemma_html_params_lookup(fs: Seq<SearchParamFieldOutput>, metas: Seq<SearchParamFieldMeta>, k: Seq<char>)
    requires
        fields_of(fs, metas),
        distinct_names(metas),
    ensures
        forall|i: int| 0 <= i < fs.len() && metas[i].name@ == k ==> lookup(html_params(fs), k) == given_by(
            #[trigger] fs[i],
        ),
        (forall|i: int| 0 <= i < fs.len() ==> (#[trigger] metas[i]).name@ != k) ==> lookup(
            html_params(fs),
            k,
        ) is None,
    decreases fs.len(),
{
    if fs.len() == 0 {
        crate::str_map::lemma_find_key(html_params(fs), k);
    } else {
        let init = fs.drop_last();
        let mi = metas.drop_last();
        let last = fs.len() - 1;
        assert(fields_of(init, mi)) by {
            assert forall|i: int| 0 <= i < init.len() implies (#[trigger] init[i]).field_meta == mi[i]
                && init[i].field_input.name@ == mi[i].name@ by {
                assert(init[i] == fs[i] && mi[i] == metas[i]);
            }
        }
        assert(distinct_names(mi)) by {
            assert forall|i: int, j: int| 0 <= i < mi.len() && 0 <= j < mi.len() && i != j implies (
            #[trigger] mi[i]).name@ != (#[trigger] mi[j]).name@ by {
                assert(mi[i] == metas[i] && mi[j] == metas[j]);
            }
        }
        lemma_html_params_lookup(init, mi, k);
        let m = html_params(init);
        let f = fs.last();
        assert(f == fs[last]);
        match f.field_input.value {
            Some(v) => crate::str_map::lemma_lookup_after_insert(m, f.field_input.name@, v@, k),
            None => {},
        }
        assert forall|i: int| 0 <= i < fs.len() && metas[i].name@ == k implies lookup(html_params(fs), k)
            == given_by(#[trigger] fs[i]) by {
            if i < last {
                assert(init[i] == fs[i] && mi[i] == metas[i]);
                assert(metas[last].name@ != k);
            } else {
                assert forall|j: int| 0 <= j < init.len() implies (#[trigger] mi[j]).name@ != k by {
                    assert(mi[j] == metas[j]);
                }
            }
        }
        if forall|i: int| 0 <= i < fs.len() ==> (#[trigger] metas[i]).name@ != k {
            assert forall|j: int| 0 <= j < init.len() implies (#[trigger] mi[j]).name@ != k by {
                assert(mi[j] == metas[j]);
            }
            assert(metas[last].name@ != k);
        }
    }
}

/// Among fields under names of their own, what the search gives for a name is what it
/// gives for the field of that name, and nothing when no field has it.
proof fn lemma_given_value_of_field(fs: Seq<SearchParamFieldOutput>, metas: Seq<SearchParamFieldMeta>, k: Seq<char>)
    requires
        fields_of(fs, metas),
        distinct_names(metas),
    ensures
        forall|i: int| 0 <= i < fs.len() && metas[i].name@ == k ==> given_value(fs, k) == given_by(
            #[trigger] fs[i],
        ),
        (forall|i: int| 0 <= i < fs.len() ==> (#[trigger] metas[i]).name@ != k) ==> given_value(fs, k)
            is None,
    decreases fs.len(),
{
    if fs.len() > 0 {
        let rest = fs.drop_first();
        let mr = metas.drop_first();
        assert(fields_of(rest, mr)) by {
            assert forall|i: int| 0 <= i < rest.len() implies (#[trigger] rest[i]).field_meta == mr[i]
                && rest[i].field_input.name@ == mr[i].name@ by {
                assert(rest[i] == fs[i + 1] && mr[i] == metas[i + 1]);
            }
        }
        assert(distinct_names(mr)) by {
            assert forall|i: int, j: int| 0 <= i < mr.len() && 0 <= j < mr.len() && i != j implies (
            #[trigger] mr[i]).name@ != (#[trigger] mr[j]).name@ by {
                assert(mr[i] == metas[i + 1] && mr[j] == metas[j + 1]);
            }
        }
        lemma_given_value_of_field(rest, mr, k);
        assert(fs[0].field_meta == metas[0]);
        assert forall|i: int| 0 <= i < fs.len() && metas[i].name@ == k implies given_value(fs, k) == given_by(
            #[trigger] fs[i],
        ) by {
            if i > 0 {
                assert(rest[i - 1] == fs[i] && mr[i - 1] == metas[i]);
                assert(metas[0].name@ != k);
            } else {
                if left_at_default(fs[0]) {
                    assert forall|j: int| 0 <= j < rest.len() implies (#[trigger] mr[j]).name@ != k by {
                        assert(mr[j] == metas[j + 1]);
                    }
                }
            }
        }
        if forall|i: int| 0 <= i < fs.len() ==> (#[trigger] metas[i]).name@ != k {
            assert forall|j: int| 0 <= j < rest.len() implies (#[trigger] mr[j]).name@ != k by {
                assert(mr[j] == metas[j + 1]);
            }
            assert(metas[0].name@ != k);
        }
    }
}

/// A search written out as query-string parameters (`into_html_params`) and read back
/// for the same field descriptions (`new_from_hashmap`) gives the same value for every
/// name, when the fields have names of their own.
pub proof fn lemma_html_params_read_back(
    fs: Seq<SearchParamFieldOutput>,
    metas: Seq<SearchParamFieldMeta>,
    read_back: Seq<SearchParamFieldOutput>,
    k: Seq<char>,
)
    requires
        fields_of(fs, metas),
        distinct_names(metas),
        built_from(read_back, metas, html_params(fs)),
    ensures
        given_value(read_back, k) == given_value(fs, k),
{
    assert(fields_of(read_back, metas));
    lemma_html_params_lookup(fs, metas, k);
    lemma_given_value_of_field(fs, metas, k);
    lemma_given_value_of_field(read_back, metas, k);
    assert forall|i: int| 0 <= i < fs.len() && metas[i].name@ == k implies given_by(#[trigger] read_back[i])
        == given_by(fs[i]) by {
        let f = fs[i];
        let g = read_back[i];
        assert(opt_view(g.field_input.value) == value_from_params(metas[i], html_params(fs)));
    }
    if exists|i: int| 0 <= i < fs.len() && metas[i].name@ == k {
        let i = choose|i: int| 0 <= i < fs.len() && metas[i].name@ == k;
        assert(given_by(read_back[i]) == given_by(fs[i]));
    }
}

/// The value read for `name` is that of the first field with that name, and an empty
/// value reads as a missing one: as the field's default. No field with the name reads
/// as nothing.
pub proof fn lemma_value_or_default_of_first(fs: Seq<SearchParamFieldOutput>, name: Seq<char>)
    ensures
        forall|i: int|
            0 <= i < fs.len() && (#[trigger] fs[i]).field_meta.name@ == name && (forall|j: int|
                0 <= j < i ==> (#[trigger] fs[j]).field_meta.name@ != name) ==> value_or_default_named(fs, name)
                == (match fs[i].field_input.value {
                Some(v) => if v@.len() > 0 {
                    Some(v@)
                } else {
                    opt_view(fs[i].field_meta.default)
                },
                None => opt_view(fs[i].field_meta.default),
            }),
        (forall|j: int| 0 <= j < fs.len() ==> (#[trigger] fs[j]).field_meta.name@ != name)
            ==> value_or_default_named(fs, name) is None,
    decreases fs.len(),
{
    if fs.len() > 0 {
        let rest = fs.drop_first();
        lemma_value_or_default_of_first(rest, name);
        assert forall|i: int|
            0 <= i < fs.len() && (#[trigger] fs[i]).field_meta.name@ == name && (forall|j: int|
                0 <= j < i ==> (#[trigger] fs[j]).field_meta.name@ != name) implies value_or_default_named(fs, name)
            == (match fs[i].field_input.value {
            Some(v) => if v@.len() > 0 {
                Some(v@)
            } else {
                opt_view(fs[i].field_meta.default)
            },
            None => opt_view(fs[i].field_meta.default),
        }) by {
            if i > 0 {
                assert(fs[0].field_meta.name@ != name);
                assert(rest[i - 1] == fs[i]);
                assert forall|j: int| 0 <= j < i - 1 implies (#[trigger] rest[j]).field_meta.name@ != name by {
                    assert(rest[j] == fs[j + 1]);
                }
            }
        }
        if forall|j: int| 0 <= j < fs.len() ==> (#[trigger] fs[j]).field_meta.name@ != name {
            assert(fs[0].field_meta.name@ != name);
            assert forall|j: int| 0 <= j < rest.len() implies (#[trigger] rest[j]).field_meta.name@ != name by {
                assert(rest[j] == fs[j + 1]);
            }
        }
    }
}

/// A page size left empty in the form reads as the field's default: when the first
/// field named `limit` has an empty or no value and the default `d`, `get_limit`
/// reads `d` as an `i32`.
pub proof fn lemma_empty_limit_reads_default(fs: Seq<SearchParamFieldOutput>, i: int, d: String)
    requires
        0 <= i < fs.len(),
        fs[i].field_meta.name@ == "limit"@,
        forall|j: int| 0 <= j < i ==> (#[trigger] fs[j]).field_meta.name@ != "limit"@,
        fs[i].field_input.value is None || fs[i].field_input.value->0@.len() == 0,
        fs[i].field_meta.default == Some(d),
    ensures
        (match value_or_default_named(fs, "limit"@) {
            Some(x) => parse_i32_spec(x),
            None => None,
        }) == parse_i32_spec(d@),
{
    lemma_value_or_default_of_first(fs, "limit"@);
}

/// The free-text group searches the pattern in the column of every text field: for
/// each field of type `text` with a column `c`, the group maps `c LIKE ?` to the
/// pattern, and it maps every key it has to the pattern.
pub proof fn lemma_text_search_covers_every_text_field(fs: Seq<SearchParamFieldOutput>, pattern: Seq<char>)
    ensures
        forall|i: int|
            0 <= i < fs.len() && (#[trigger] fs[i]).field_meta.input_type@ == "text"@
                && fs[i].field_meta.sql_field is Some ==> lookup(
                text_search_group(fs, pattern),
                fs[i].field_meta.sql_field->0@ + " LIKE ?"@,
            ) == Some(pattern),
        forall|k: Seq<char>| #[trigger] lookup(text_search_group(fs, pattern), k) is Some ==> lookup(
            text_search_group(fs, pattern),
            k,
        ) == Some(pattern),
    decreases fs.len(),
{
    if fs.len() > 0 {
        let init = fs.drop_last();
        let m = text_search_group(init, pattern);
        lemma_text_search_covers_every_text_field(init, pattern);
        let f = fs.last();
        let last = fs.len() - 1;
        assert(f == fs[last]);
        assert forall|k: Seq<char>| #[trigger] lookup(text_search_group(fs, pattern), k) is Some implies lookup(
            text_search_group(fs, pattern),
            k,
        ) == Some(pattern) by {
            match f.field_meta.sql_field {
                Some(column) => if f.field_meta.input_type@ == "text"@ {
                    crate::str_map::lemma_lookup_after_insert(m, column@ + " LIKE ?"@, pattern, k);
                },
                None => {},
            }
        }
        assert forall|i: int|
            0 <= i < fs.len() && (#[trigger] fs[i]).field_meta.input_type@ == "text"@
                && fs[i].field_meta.sql_field is Some implies lookup(
            text_search_group(fs, pattern),
            fs[i].field_meta.sql_field->0@ + " LIKE ?"@,
        ) == Some(pattern) by {
            let key = fs[i].field_meta.sql_field->0@ + " LIKE ?"@;
            match f.field_meta.sql_field {
                Some(column) => if f.field_meta.input_type@ == "text"@ {
                    crate::str_map::lemma_lookup_after_insert(m, column@ + " LIKE ?"@, pattern, key);
                    if i < last {
                        assert(init[i] == fs[i]);
                    }
                } else {
                    assert(i < last);
                    assert(init[i] == fs[i]);
                },
                None => {
                    assert(i < last);
                    assert(init[i] == fs[i]);
                },
            }
        }
    }
}

/// The value the field described by `meta` gets from the parameters `params`: the
/// parameter stored under the field's name, except that an empty one counts as none
/// when the field has no default.
pub open spec fn value_from_params(meta: SearchParamFieldMeta, params: Entries) -> Option<Seq<char>> {
    match lookup(params, meta.name@) {
        Some(v) => if v.len() == 0 && meta.default is None {
            None
        } else {
            Some(v)
        },
        None => None,
    }
}

/// The parameters of a query string `a=1&b=2`: each `&`-separated pair split at its
/// first `=` (no `=` means an empty value), values percent-decoded, later pairs
/// overriding earlier ones with the same key.
pub open spec fn query_pairs(pairs: Seq<Seq<char>>) -> Entries
    decreases pairs.len(),
{
    if pairs.len() == 0 {
        Seq::empty()
    } else {
        let (k, v) = crate::text::split_once_spec(pairs.last(), '=');
        insert_entry(
            query_pairs(pairs.drop_last()),
            k,
            crate::url::percent_decoded(
                match v {
                    Some(x) => x,
                    None => Seq::empty(),
                },
            ),
        )
    }
}

/// `params` adjusted to the field descriptions `metas`, one after the other: a
/// checkbox that is present becomes `true`, and any other field whose value equals
/// its default is dropped.
pub open spec fn adjust_to_metas(metas: Seq<SearchParamFieldMeta>, params: Entries) -> Entries
    decreases metas.len(),
{
    if metas.len() == 0 {
        params
    } else {
        let p = adjust_to_metas(metas.drop_last(), params);
        let m = metas.last();
        if m.input_type@ == "checkbox"@ {
            if lookup(p, m.name@) is Some {
                insert_entry(p, m.name@, "true"@)
            } else {
                p
            }
        } else {
            match (lookup(p, m.name@), m.default) {
                (Some(v), Some(d)) => if v == d@ {
                    remove_entry(p, m.name@)
                } else {
                    p
                },
                _ => p,
            }
        }
    }
}

/// The column title of `c`: `Thumbnail`, `Path`, or the label of the first image
/// column named `c`.
pub open spec fn column_title(c: Seq<char>, metas: Seq<ImageFieldMeta>) -> Option<Seq<char>> {
    if c == "thumbnail"@ {
        Some("Thumbnail"@)
    } else if c == "path"@ {
        Some("Path"@)
    } else if exists|i: int| 0 <= i < metas.len() && #[trigger] metas[i].name@ == c {
        let i = choose|i: int|
            0 <= i < metas.len() && metas[i].name@ == c && forall|j: int|
                0 <= j < i ==> #[trigger] metas[j].name@ != c;
        Some(metas[i].label@)
    } else {
        None
    }
}

/// The titles of the columns `cs` that have one, in order.
pub open spec fn column_titles(cs: Seq<Seq<char>>, metas: Seq<ImageFieldMeta>) -> Seq<Seq<char>>
    decreases cs.len(),
{
    if cs.len() == 0 {
        Seq::empty()
    } else {
        column_titles(cs.drop_last(), metas) + match column_title(cs.last(), metas) {
            Some(t) => seq![t],
            None => Seq::empty(),
        }
    }
}

/// Whether `fields` are the fields described by `metas`, in order, each with the value
/// it gets from `params`.
pub open spec fn built_from(
    fields: Seq<SearchParamFieldOutput>,
    metas: Seq<SearchParamFieldMeta>,
    params: Entries,
) -> bool {
    &&& fields.len() == metas.len()
    &&& forall|i: int|
        0 <= i < fields.len() ==> {
            &&& (#[trigger] fields[i]).field_meta == metas[i]
            &&& fields[i].field_input.name@ == metas[i].name@
            &&& opt_view(fields[i].field_input.value) == value_from_params(metas[i], params)
        }
}

/// The trimmed pieces of a comma-separated list.
pub open spec fn trimmed_pieces(v: Seq<char>) -> Seq<Seq<char>> {
    split_on(v, ',').map_values(|p: Seq<char>| trim_ws(p))
}

// ---------------------------------------------------------------------------
// Operations
// ---------------------------------------------------------------------------

impl SearchParamFieldList {
    /// A list of the fields `fields`.
    pub fn new(fields: Vec<SearchParamFieldOutput>) -> (r: Self)
        ensures
            r.fields == fields,
    {
        Self { fields }
    }

    /// The HTML of the fields, one form group after the other, separated by newlines.
    pub fn to_html(&self) -> (r: String)
        ensures
            r@ == joined(fields_html(self.fields@), "\n"@),
    {
        let mut parts: Vec<String> = Vec::new();
        let n = self.fields.len();
        for i in 0..n
            invariant
                n == self.fields@.len(),
                views(parts@) == fields_html(self.fields@.take(i as int)),
        {
            let h = self.fields[i].to_html();
            proof {
                assert(views(parts@.push(h)) == views(parts@).push(h@));
                assert(fields_html(self.fields@.take(i + 1)) == fields_html(
                    self.fields@.take(i as int),
                ).push(field_html(self.fields@[i as int])));
            }
            parts.push(h);
        }
        assert(self.fields@.take(n as int) == self.fields@);
        join(&parts, "\n")
    }
}

impl SearchParamFieldOutput {
    /// The HTML form group of the field: a label and an input holding its value.
    pub fn to_html(&self) -> (r: String)
        ensures
            r@ == field_html(*self),
    {
        let m = &self.field_meta;
        let value: &str = match &self.field_input.value {
            Some(v) => v.as_str(),
            None => "",
        };
        let other: &str = if str_eq(m.input_type.as_str(), "number") {
            "step=\"any\""
        } else {
            ""
        };
        let mut r = concat2("<div class=\"form-group\">\n                <label for=\"", m.name.as_str());
        r.append("\">");
        r.append(m.label.as_str());
        r.append("</label>\n                <input type=\"");
        r.append(m.input_type.as_str());
        r.append("\" id=\"");
        r.append(m.name.as_str());
        r.append("\" name=\"");
        r.append(m.name.as_str());
        r.append("\" placeholder=\"");
        r.append(m.placeholder.as_str());
        r.append("\" value=\"");
        r.append(value);
        r.append("\" ");
        r.append(other);
        r.append("/>\n            </div>");
        r
    }

    /// The SQL comparison the field filters with, when it has a SQL column.
    pub fn get_sql_comparison_operator(&self) -> (r: Option<&'static str>)
        ensures
            match r {
                Some(op) => comparison_operator(*self) == Some(op@),
                None => comparison_operator(*self) is None,
            },
    {
        if self.field_meta.sql_field.is_none() {
            return None;
        }
        let t = self.field_meta.input_type.as_str();
        let op: &'static str = if str_eq(t, "number") || str_eq(t, "date") {
            if ends_with(self.field_meta.name.as_str(), "_min") {
                ">="
            } else if ends_with(self.field_meta.name.as_str(), "_max") {
                "<="
            } else {
                "="
            }
        } else if str_eq(t, "text") {
            "LIKE"
        } else {
            "="
        };
        Some(op)
    }

    /// Adds the field's SQL condition to `params`: its column and comparison mapped to
    /// its value or default (wrapped in `%` for `LIKE`), when it has a column and a
    /// non-empty value.
    pub fn add_sql_condition(&self, params: &mut StrMap)
        ensures
            final(params)@ == with_sql_condition(*self, old(params)@),
    {
        if let Some(sql_field) = &self.field_meta.sql_field {
            if let Some(comparison_operator) = self.get_sql_comparison_operator() {
                let v: Option<&String> = match &self.field_input.value {
                    Some(x) => Some(x),
                    None => match &self.field_meta.default {
                        Some(d) => Some(d),
                        None => None,
                    },
                };
                if let Some(value) = v {
                    if !value.as_str().is_empty() {
                        let formatted_value = if str_eq(comparison_operator, "LIKE") {
                            concat3("%", value.as_str(), "%")
                        } else {
                            value.clone()
                        };
                        let mut key = concat3(sql_field.as_str(), " ", comparison_operator);
                        key.append(" ?");
                        params.insert(key, formatted_value);
                    }
                }
            }
        }
    }
}

/// Copies of the views of `fs` from index `i` on.
proof fn lemma_skip_first<A>(fs: Seq<A>, i: int)
    requires
        0 <= i < fs.len(),
    ensures
        fs.skip(i).drop_first() == fs.skip(i + 1),
        fs.skip(i)[0] == fs[i],
{
    assert(fs.skip(i).drop_first() == fs.skip(i + 1));
}

impl SearchParams {
    /// Parameters with no field.
    pub fn default() -> (r: Self)
        ensures
            r.fields@.len() == 0,
    {
        Self { fields: Vec::new() }
    }

    /// The value of the first field named `name` that is not left at its default.
    fn get_field_value(&self, name: &str) -> (r: Option<String>)
        ensures
            opt_view(r) == given_value(self.fields@, name@),
    {
        let n = self.fields.len();
        assert(self.fields@.skip(0) == self.fields@);
        for i in 0..n
            invariant
                n == self.fields@.len(),
                given_value(self.fields@, name@) == given_value(self.fields@.skip(i as int), name@),
        {
            proof {
                lemma_skip_first(self.fields@, i as int);
            }
            let field = &self.fields[i];
            let skipped = match &field.field_input.value {
                Some(v_in) => match &field.field_meta.default {
                    Some(v_default) => *v_in == *v_default,
                    None => v_in.as_str().is_empty(),
                },
                None => match &field.field_meta.default {
                    Some(v_default) => v_default.as_str().is_empty(),
                    None => false,
                },
            };
            assert(skipped == left_at_default(self.fields@[i as int]));
            if !skipped && str_eq(field.field_meta.name.as_str(), name) {
                return clone_opt(&field.field_input.value);
            }
        }
        assert(self.fields@.skip(n as int).len() == 0);
        None
    }

    /// The value of the first field named `name`, or its default when the value is
    /// missing or empty.
    fn get_field_value_or_default(&self, name: &str) -> (r: Option<String>)
        ensures
            opt_view(r) == value_or_default_named(self.fields@, name@),
    {
        let n = self.fields.len();
        assert(self.fields@.skip(0) == self.fields@);
        for i in 0..n
            invariant
                n == self.fields@.len(),
                value_or_default_named(self.fields@, name@) == value_or_default_named(
                    self.fields@.skip(i as int),
                    name@,
                ),
        {
            proof {
                lemma_skip_first(self.fields@, i as int);
            }
            let field = &self.fields[i];
            if str_eq(field.field_meta.name.as_str(), name) {
                return match &field.field_input.value {
                    Some(v) => if v.as_str().is_empty() {
                        clone_opt(&field.field_meta.default)
                    } else {
                        Some(v.clone())
                    },
                    None => clone_opt(&field.field_meta.default),
                };
            }
        }
        assert(self.fields@.skip(n as int).len() == 0);
        None
    }

    /// The free-text query.
    pub fn get_query(&self) -> (r: Option<String>)
        ensures
            opt_view(r) == given_value(self.fields@, "query"@),
    {
        self.get_field_value("query")
    }

    /// Whether the simple view was asked for: `Some(true)` when the field holds `true`.
    pub fn get_use_simple_view(&self) -> (r: Option<bool>)
        ensures
            r == match given_value(self.fields@, "use_simple_view"@) {
                Some(v) => Some(v == "true"@),
                None => None,
            },
    {
        match self.get_field_value("use_simple_view") {
            Some(value) => Some(str_eq(value.as_str(), "true")),
            None => None,
        }
    }

    /// The category being browsed.
    pub fn get_category(&self) -> (r: Option<String>)
        ensures
            opt_view(r) == given_value(self.fields@, "category"@),
    {
        self.get_field_value("category")
    }

    /// The value of the category being browsed.
    pub fn get_category_value(&self) -> (r: Option<String>)
        ensures
            opt_view(r) == given_value(self.fields@, "category_value"@),
    {
        self.get_field_value("category_value")
    }

    /// The page size: the `limit` field's value or default, read as an `i32`.
    pub fn get_limit(&self) -> (r: Option<i32>)
        ensures
            r == match value_or_default_named(self.fields@, "limit"@) {
                Some(v) => parse_i32_spec(v),
                None => None,
            },
    {
        match self.get_field_value_or_default("limit") {
            Some(v) => parse_i32(v.as_str()),
            None => None,
        }
    }

    /// The number of results to skip: the `offset` field's value, read as an `i32`.
    pub fn get_offset(&self) -> (r: Option<i32>)
        ensures
            r == match given_value(self.fields@, "offset"@) {
                Some(v) => parse_i32_spec(v),
                None => None,
            },
    {
        match self.get_field_value("offset") {
            Some(v) => parse_i32(v.as_str()),
            None => None,
        }
    }

    /// The SQL conditions of the search, in groups: when a free-text query is given, a
    /// first group matching `%query%` against every text column; then the group of the
    /// conditions of all fields.
    pub fn into_sql_query_params(&self) -> (r: Vec<StrMap>)
        ensures
            r@.len() == (if given_value(self.fields@, "query"@) is Some { 2int } else { 1int }),
            given_value(self.fields@, "query"@) matches Some(q) ==> r@[0]@ == text_search_group(
                self.fields@,
                "%"@ + q + "%"@,
            ),
            r@.last()@ == sql_conditions(self.fields@, Seq::empty()),
    {
        let mut param_groups: Vec<StrMap> = Vec::new();
        let n = self.fields.len();
        if let Some(query) = self.get_field_value("query") {
            let search_pattern = concat3("%", query.as_str(), "%");
            let mut param_group = StrMap::new();
            for i in 0..n
                invariant
                    n == self.fields@.len(),
                    param_group@ == text_search_group(self.fields@.take(i as int), search_pattern@),
            {
                let text_field = &self.fields[i];
                assert(self.fields@.take(i + 1).drop_last() == self.fields@.take(i as int));
                assert(self.fields@.take(i + 1).last() == self.fields@[i as int]);
                if str_eq(text_field.field_meta.input_type.as_str(), "text") {
                    if let Some(sql_field) = &text_field.field_meta.sql_field {
                        param_group.insert(concat2(sql_field.as_str(), " LIKE ?"), search_pattern.clone());
                    }
                }
            }
            assert(self.fields@.take(n as int) == self.fields@);
            param_groups.push(param_group);
        }
        let mut params = StrMap::new();
        for i in 0..n
            invariant
                n == self.fields@.len(),
                params@ == sql_conditions(self.fields@.take(i as int), Seq::empty()),
        {
            assert(self.fields@.take(i + 1).drop_last() == self.fields@.take(i as int));
            assert(self.fields@.take(i + 1).last() == self.fields@[i as int]);
            self.fields[i].add_sql_condition(&mut params);
        }
        assert(self.fields@.take(n as int) == self.fields@);
        param_groups.push(params);
        param_groups
    }

    /// The parameters to put in a link back to this search: the value of each field
    /// that is not left at its default, under the field's input name.
    pub fn into_html_params(&self) -> (r: StrMap)
        ensures
            r@ == html_params(self.fields@),
    {
        let mut params = StrMap::new();
        let n = self.fields.len();
        for i in 0..n
            invariant
                n == self.fields@.len(),
                params@ == html_params(self.fields@.take(i as int)),
        {
            let field = &self.fields[i];
            assert(self.fields@.take(i + 1).drop_last() == self.fields@.take(i as int));
            assert(self.fields@.take(i + 1).last() == self.fields@[i as int]);
            let skipped = match &field.field_input.value {
                Some(v_in) => match &field.field_meta.default {
                    Some(v_default) => *v_in == *v_default,
                    None => v_in.as_str().is_empty(),
                },
                None => match &field.field_meta.default {
                    Some(v_default) => v_default.as_str().is_empty(),
                    None => false,
                },
            };
            if !skipped {
                field.field_input.add_html_param(&mut params, &field.field_input.value);
            }
        }
        assert(self.fields@.take(n as int) == self.fields@);
        params
    }

    /// A one-line description of the search: `label: value` for each field that is
    /// not for display only and has a value, separated by `, `.
    pub fn to_string(&self) -> (r: String)
        ensures
            r@ == joined(described_fields(self.fields@), ", "@),
    {
        let mut parts: Vec<String> = Vec::new();
        let n = self.fields.len();
        for i in 0..n
            invariant
                n == self.fields@.len(),
                views(parts@) == described_fields(self.fields@.take(i as int)),
        {
            let field = &self.fields[i];
            assert(self.fields@.take(i + 1).drop_last() == self.fields@.take(i as int));
            assert(self.fields@.take(i + 1).last() == self.fields@[i as int]);
            if !field.field_meta.is_for_display {
                if let Some(value) = &field.field_input.value {
                    let part = concat3(field.field_meta.label.as_str(), ": ", value.as_str());
                    proof {
                        assert(views(parts@.push(part)) == views(parts@).push(part@));
                    }
                    parts.push(part);
                }
            }
        }
        assert(self.fields@.take(n as int) == self.fields@);
        join(&parts, ", ")
    }

    /// Gives the field named `name` the value `value`; the field moves to the end of
    /// the list. Nothing changes when no field has that name.
    pub fn set_field_value(&mut self, name: &str, value: Option<String>)
        ensures
            field_set(old(self).fields@, final(self).fields@, name@, value),
    {
        let n = self.fields.len();
        let ghost fs = self.fields@;
        let mut i: usize = 0;
        while i < n && !str_eq(self.fields[i].field_meta.name.as_str(), name)
            invariant
                n == self.fields@.len(),
                fs == self.fields@,
                i <= n,
                forall|j: int| 0 <= j < i ==> #[trigger] fs[j].field_meta.name@ != name@,
            decreases n - i,
        {
            i = i + 1;
        }
        if i < n {
            proof {
                let w = choose|w: int|
                    0 <= w < fs.len() && fs[w].field_meta.name@ == name@ && forall|j: int|
                        0 <= j < w ==> #[trigger] fs[j].field_meta.name@ != name@;
                assert(fs[i as int].field_meta.name@ == name@);
                assert(w == i);
            }
            let x = self.fields.remove(i);
            let field_input = SearchParamFieldInput { name: String::from_str(name), value };
            self.fields.push(SearchParamFieldOutput { field_meta: x.field_meta, field_input });
            assert(self.fields@.take(self.fields@.len() - 1) == fs.remove(i as int));
        } else {
            assert(!exists|j: int| 0 <= j < fs.len() && #[trigger] fs[j].field_meta.name@ == name@);
        }
    }

    /// The fields described by `metas`, in order, each with the value stored under
    /// its name in `params`; an empty value counts as none for a field without a
    /// default.
    pub fn new_from_hashmap(params: &StrMap, metas: &Vec<SearchParamFieldMeta>) -> (r: SearchParams)
        ensures
            built_from(r.fields@, metas@, params@),
    {
        let mut search_params = SearchParams::default();
        let n = metas.len();
        for i in 0..n
            invariant
                n == metas@.len(),
                built_from(search_params.fields@, metas@.take(i as int), params@),
        {
            let field = &metas[i];
            let mut value = match params.get(field.name.as_str()) {
                Some(v) => Some(v.clone()),
                None => None,
            };
            let clear = match &value {
                Some(v_in) => v_in.as_str().is_empty() && field.default.is_none(),
                None => false,
            };
            if clear {
                value = None;
            }
            let field_input = SearchParamFieldInput { name: field.name.clone(), value };
            let field_output = field_input.to_output(field.copy());
            search_params.fields.push(field_output);
            proof {
                let fs = search_params.fields@;
                let ms = metas@.take(i + 1);
                assert forall|k: int| 0 <= k < fs.len() implies {
                    &&& (#[trigger] fs[k]).field_meta == ms[k]
                    &&& fs[k].field_input.name@ == ms[k].name@
                    &&& opt_view(fs[k].field_input.value) == value_from_params(ms[k], params@)
                } by {
                    if k < i {
                        assert(ms[k] == metas@.take(i as int)[k]);
                    }
                }
            }
        }
        assert(metas@.take(n as int) == metas@);
        search_params
    }

    /// The search described by the query string `query_string` (`name=value` pairs
    /// separated by `&`, values percent-decoded) for the fields `metas`: a checkbox
    /// that is present is `true`, other values equal to their field's default are
    /// dropped, and the rest is read as `new_from_hashmap` reads it.
    #[verifier::spinoff_prover]
    #[verifier::rlimit(40)]
    pub fn new_from_querystring(query_string: &str, metas: &Vec<SearchParamFieldMeta>) -> (r: SearchParams)
        ensures
            built_from(
                r.fields@,
                metas@,
                adjust_to_metas(metas@, query_pairs(split_on(query_string@, '&'))),
            ),
    {
        let pairs = split_char(query_string, '&');
        let ghost pieces = split_on(query_string@, '&');
        let mut params = StrMap::new();
        let n = pairs.len();
        for i in 0..n
            invariant
                n == pairs@.len(),
                pieces.len() == n,
                forall|k: int| 0 <= k < n ==> #[trigger] pairs@[k]@ == pieces[k],
                params@ == query_pairs(pieces.take(i as int)),
        {
            assert(pieces.take(i + 1).drop_last() == pieces.take(i as int));
            assert(pieces.take(i + 1).last() == pairs@[i as int]@);
            let (key, value) = crate::text::split_once_char(pairs[i].as_str(), '=');
            let raw = match value {
                Some(v) => v,
                None => String::new(),
            };
            let mut decoded_value = String::new();
            crate::url::decode_to_string(raw.as_str(), &mut decoded_value);
            assert(decoded_value@ == crate::url::percent_decoded(raw@));
            params.insert(key, decoded_value);
        }
        assert(pieces.take(n as int) == pieces);
        let ghost start = params@;
        let m = metas.len();
        for i in 0..m
            invariant
                m == metas@.len(),
                params@ == adjust_to_metas(metas@.take(i as int), start),
        {
            let field = &metas[i];
            assert(metas@.take(i + 1).drop_last() == metas@.take(i as int));
            assert(metas@.take(i + 1).last() == metas@[i as int]);
            if str_eq(field.input_type.as_str(), "checkbox") {
                if params.contains_key(field.name.as_str()) {
                    params.insert(field.name.clone(), String::from_str("true"));
                }
            } else {
                let drop = match (params.get(field.name.as_str()), &field.default) {
                    (Some(value), Some(default_val)) => *value == *default_val,
                    _ => false,
                };
                if drop {
                    params.remove(field.name.as_str());
                }
            }
        }
        assert(metas@.take(m as int) == metas@);
        Self::new_from_hashmap(&params, metas)
    }

    /// The columns to show: the comma-separated `columns_to_display` value, each name
    /// trimmed; `None` when no such value is given.
    pub fn get_columns_to_display(&self) -> (r: Option<Vec<String>>)
        ensures
            match given_value(self.fields@, "columns_to_display"@) {
                Some(v) => r matches Some(cs) && views(cs@) == trimmed_pieces(v),
                None => r is None,
            },
    {
        match self.get_field_value("columns_to_display") {
            Some(s) => {
                let pieces = split_char(s.as_str(), ',');
                let mut columns: Vec<String> = Vec::new();
                let n = pieces.len();
                for i in 0..n
                    invariant
                        n == pieces@.len(),
                        n == split_on(s@, ',').len(),
                        forall|k: int| 0 <= k < n ==> #[trigger] pieces@[k]@ == split_on(s@, ',')[k],
                        views(columns@) == trimmed_pieces(s@).take(i as int),
                {
                    let t = trim(pieces[i].as_str());
                    proof {
                        assert(views(columns@.push(t)) == views(columns@).push(t@));
                        assert(trimmed_pieces(s@).take(i + 1) == trimmed_pieces(s@).take(i as int).push(
                            trim_ws(split_on(s@, ',')[i as int]),
                        ));
                    }
                    columns.push(t);
                }
                assert(trimmed_pieces(s@).take(n as int) == trimmed_pieces(s@));
                proof {
                    crate::text::lemma_split_nonempty(s@, ',');
                }
                if columns.len() == 0 {
                    None
                } else {
                    Some(columns)
                }
            },
            None => None,
        }
    }

    /// The titles of the columns `columns`: `Thumbnail` and `Path` for those two, the
    /// label of the image column of that name for the others; columns with no title are
    /// left out.
    pub fn get_column_titles(columns: &[String], all_meta: &Vec<ImageFieldMeta>) -> (r: Vec<String>)
        ensures
            views(r@) == column_titles(views(columns@), all_meta@),
    {
        let mut titles: Vec<String> = Vec::new();
        let n = columns.len();
        for i in 0..n
            invariant
                n == columns@.len(),
                views(titles@) == column_titles(views(columns@.take(i as int)), all_meta@),
        {
            let c = columns[i].as_str();
            proof {
                assert(views(columns@.take(i + 1)).drop_last() == views(columns@.take(i as int)));
                assert(views(columns@.take(i + 1)).last() == c@);
            }
            match column_title_of(c, all_meta) {
                Some(t) => {
                    proof {
                        assert(views(titles@.push(t)) == views(titles@).push(t@));
                    }
                    titles.push(t);
                },
                None => {},
            }
        }
        assert(columns@.take(n as int) == columns@);
        titles
    }
}

fn column_title_of(c: &str, all_meta: &Vec<ImageFieldMeta>) -> (r: Option<String>)
    ensures
        opt_view(r) == column_title(c@, all_meta@),
{
    if str_eq(c, "thumbnail") {
        return Some(String::from_str("Thumbnail"));
    }
    if str_eq(c, "path") {
        return Some(String::from_str("Path"));
    }
    let m = all_meta.len();
    for j in 0..m
        invariant
            m == all_meta@.len(),
            c@ != "thumbnail"@,
            c@ != "path"@,
            forall|k: int| 0 <= k < j ==> #[trigger] all_meta@[k].name@ != c@,
    {
        if str_eq(all_meta[j].name.as_str(), c) {
            proof {
                let w = choose|w: int|
                    0 <= w < all_meta@.len() && all_meta@[w].name@ == c@ && forall|k: int|
                        0 <= k < w ==> #[trigger] all_meta@[k].name@ != c@;
                assert(all_meta@[j as int].name@ == c@);
                assert(w == j);
            }
            return Some(all_meta[j].label.clone());
        }
    }
    assert(!exists|k: int| 0 <= k < all_meta@.len() && #[trigger] all_meta@[k].name@ == c@);
    None
}

} // verus!
