//! Column metadata shared by all image tables.

use vstd::prelude::*;

use crate::text::clone_opt;

verus! {

/// Describes one column of an image table: where it lives, how it is shown, and
/// what kind of value it holds.
#[derive(Debug, Clone)]
pub struct ImageFieldMeta {
    pub name: String,
    pub table_name: String,
    pub label: String,
    pub description: String,
    pub field_type: String,
    pub default: Option<String>,
    pub example: Option<String>,
    pub category: Option<String>,
}

impl ImageFieldMeta {
    /// A field-for-field copy.
    pub fn copy(&self) -> (r: ImageFieldMeta)
        ensures
            r == *self,
    {
        ImageFieldMeta {
            name: self.name.clone(),
            table_name: self.table_name.clone(),
            label: self.label.clone(),
            description: self.description.clone(),
            field_type: self.field_type.clone(),
            default: clone_opt(&self.default),
            example: clone_opt(&self.example),
            category: clone_opt(&self.category),
        }
    }
}

/// Copies of the metadata records of `v`, in order.
pub fn copy_metas(v: &[ImageFieldMeta]) -> (r: Vec<ImageFieldMeta>)
    ensures
        r@ == v@,
{
    let mut r: Vec<ImageFieldMeta> = Vec::new();
    for i in 0..v.len()
        invariant
            r@ == v@.take(i as int),
    {
        r.push(v[i].copy());
        assert(v@.take(i + 1) == v@.take(i as int).push(v@[i as int]));
    }
    assert(v@.take(v@.len() as int) == v@);
    r
}

} // verus!
