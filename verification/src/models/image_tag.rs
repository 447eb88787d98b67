//! Tags attached to images, and the tags themselves.

use vstd::prelude::*;

use crate::text::{concat2, concat3, decimal_digits, format_u64};

verus! {

/// One tag attached to one image. Two of them are equal when they attach the same tag
/// to the same image, whatever their ids.
#[derive(Debug, Eq)]
pub struct ImageTag {
    pub image_tag_id: Option<u32>,
    pub image_path: String,
    pub tag_name: String,
}

impl PartialEq for ImageTag {
    fn eq(&self, other: &Self) -> (r: bool) {
        self.image_path == other.image_path && self.tag_name == other.tag_name
    }
}

impl vstd::std_specs::cmp::PartialEqSpecImpl for ImageTag {
    open spec fn obeys_eq_spec() -> bool {
        true
    }

    open spec fn eq_spec(&self, other: &Self) -> bool {
        self.image_path@ == other.image_path@ && self.tag_name@ == other.tag_name@
    }
}

/// What identifies an attached tag: the image and the tag name.
pub open spec fn tag_key(t: ImageTag) -> (Seq<char>, Seq<char>) {
    (t.image_path@, t.tag_name@)
}

/// `s` without the tags whose key an earlier tag of `s` already has.
pub open spec fn dedup_tags(s: Seq<ImageTag>) -> Seq<ImageTag>
    decreases s.len(),
{
    if s.len() == 0 {
        Seq::empty()
    } else {
        let d = dedup_tags(s.drop_last());
        if exists|j: int| 0 <= j < d.len() && tag_key(#[trigger] d[j]) == tag_key(s.last()) {
            d
        } else {
            d.push(s.last())
        }
    }
}

/// `s` without the strings an earlier string of `s` already equals.
pub open spec fn dedup_strings(s: Seq<Seq<char>>) -> Seq<Seq<char>>
    decreases s.len(),
{
    if s.len() == 0 {
        Seq::empty()
    } else {
        let d = dedup_strings(s.drop_last());
        if d.contains(s.last()) {
            d
        } else {
            d.push(s.last())
        }
    }
}

/// Whether no two tags of `s` have the same key.
pub open spec fn distinct_tags(s: Seq<ImageTag>) -> bool {
    forall|i: int, j: int|
        0 <= i < s.len() && 0 <= j < s.len() && i != j ==> tag_key(#[trigger] s[i]) != tag_key(
            #[trigger] s[j],
        )
}

/// The value of the column `f` of `t`.
pub open spec fn image_tag_field(t: ImageTag, f: Seq<char>) -> Option<Seq<char>> {
    if f == "image_tag_id"@ {
        match t.image_tag_id {
            Some(id) => Some(decimal_digits(id as nat)),
            None => None,
        }
    } else if f == "image_path"@ {
        Some(t.image_path@)
    } else if f == "tag_name"@ {
        Some(t.tag_name@)
    } else {
        None
    }
}

/// The value of the column `f` of `t`.
pub open spec fn tag_field(t: Tag, f: Seq<char>) -> Option<Seq<char>> {
    if f == "tag_name"@ {
        Some(t.tag_name@)
    } else if f == "tag_label"@ {
        Some(t.tag_label@)
    } else if f == "tag_description"@ {
        Some(t.tag_description@)
    } else {
        None
    }
}

/// A set of attached tags: no two of them attach the same tag to the same image.
#[derive(Debug)]
pub struct ImageTagSet(Vec<ImageTag>);

impl ImageTag {
    /// A field-for-field copy.
    pub fn copy(&self) -> (r: Self)
        ensures
            r == *self,
    {
        ImageTag {
            image_tag_id: self.image_tag_id,
            image_path: self.image_path.clone(),
            tag_name: self.tag_name.clone(),
        }
    }

    /// The value of the column `field`: the id in decimal (when there is one), the
    /// image path, or the tag name; `None` for any other name.
    pub fn get_field(&self, field: &str) -> (r: Option<String>)
        ensures
            crate::text::opt_view(r) == image_tag_field(*self, field@),
    {
        if crate::text::str_eq(field, "image_tag_id") {
            match self.image_tag_id {
                Some(id) => Some(format_u64(id as u64)),
                None => None,
            }
        } else if crate::text::str_eq(field, "image_path") {
            Some(self.image_path.clone())
        } else if crate::text::str_eq(field, "tag_name") {
            Some(self.tag_name.clone())
        } else {
            None
        }
    }

    /// `{image_path}: {tag_name}`.
    pub fn to_string(&self) -> (r: String)
        ensures
            r@ == self.image_path@ + ": "@ + self.tag_name@,
    {
        concat3(self.image_path.as_str(), ": ", self.tag_name.as_str())
    }
}

fn contains_tag_key(d: &Vec<ImageTag>, t: &ImageTag) -> (r: bool)
    ensures
        r == exists|j: int| 0 <= j < d@.len() && tag_key(#[trigger] d@[j]) == tag_key(*t),
{
    for j in 0..d.len()
        invariant
            forall|k: int| 0 <= k < j ==> tag_key(#[trigger] d@[k]) != tag_key(*t),
    {
        if d[j].image_path == t.image_path && d[j].tag_name == t.tag_name {
            assert(tag_key(d@[j as int]) == tag_key(*t));
            return true;
        }
    }
    false
}

proof fn lemma_dedup_distinct(s: Seq<ImageTag>)
    ensures
        distinct_tags(dedup_tags(s)),
    decreases s.len(),
{
    if s.len() > 0 {
        lemma_dedup_distinct(s.drop_last());
    }
}

impl ImageTagSet {
    /// The set of the tags `tags`; of tags with the same image and tag name, the first
    /// is kept.
    pub fn new(tags: Vec<ImageTag>) -> (r: Self)
        ensures
            r.tags_view() == dedup_tags(tags@),
            distinct_tags(r.tags_view()),
    {
        let mut d: Vec<ImageTag> = Vec::new();
        let n = tags.len();
        for i in 0..n
            invariant
                n == tags@.len(),
                d@ == dedup_tags(tags@.take(i as int)),
        {
            assert(tags@.take(i + 1).drop_last() == tags@.take(i as int));
            assert(tags@.take(i + 1).last() == tags@[i as int]);
            if !contains_tag_key(&d, &tags[i]) {
                d.push(tags[i].copy());
            }
        }
        assert(tags@.take(n as int) == tags@);
        proof {
            lemma_dedup_distinct(tags@);
        }
        ImageTagSet(d)
    }

    /// The tags `tags` attached to the image at `image_path`, without ids; each distinct
    /// tag name once, in the order of first occurrence.
    pub fn new_from_strings(image_path: String, tags: Vec<String>) -> (r: Self)
        ensures
            r.tags_view().len() == dedup_strings(crate::text::views(tags@)).len(),
            forall|i: int|
                0 <= i < r.tags_view().len() ==> {
                    &&& (#[trigger] r.tags_view()[i]).image_tag_id is None
                    &&& r.tags_view()[i].image_path@ == image_path@
                    &&& r.tags_view()[i].tag_name@ == dedup_strings(crate::text::views(tags@))[i]
                },
            distinct_tags(r.tags_view()),
    {
        let ghost names = crate::text::views(tags@);
        let mut d: Vec<ImageTag> = Vec::new();
        let n = tags.len();
        for i in 0..n
            invariant
                n == tags@.len(),
                names == crate::text::views(tags@),
                d@.len() == dedup_strings(names.take(i as int)).len(),
                forall|k: int|
                    0 <= k < d@.len() ==> {
                        &&& (#[trigger] d@[k]).image_tag_id is None
                        &&& d@[k].image_path@ == image_path@
                        &&& d@[k].tag_name@ == dedup_strings(names.take(i as int))[k]
                    },
                distinct_tags(d@),
        {
            assert(names.take(i + 1).drop_last() == names.take(i as int));
            assert(names.take(i + 1).last() == tags@[i as int]@);
            let t = ImageTag {
                image_tag_id: None,
                image_path: image_path.clone(),
                tag_name: tags[i].clone(),
            };
            let ghost prev = dedup_strings(names.take(i as int));
            if !contains_tag_key(&d, &t) {
                proof {
                    assert(!prev.contains(tags@[i as int]@)) by {
                        if prev.contains(tags@[i as int]@) {
                            let j = choose|j: int| 0 <= j < prev.len() && prev[j] == tags@[i as int]@;
                            assert(tag_key(d@[j]) == tag_key(t));
                        }
                    }
                }
                d.push(t);
            } else {
                proof {
                    let j = choose|j: int| 0 <= j < d@.len() && tag_key(#[trigger] d@[j]) == tag_key(t);
                    assert(prev[j] == tags@[i as int]@);
                    assert(prev.contains(tags@[i as int]@));
                }
            }
        }
        assert(names.take(n as int) == names);
        ImageTagSet(d)
    }

    /// The tags of the set.
    pub fn tags(&self) -> (r: &Vec<ImageTag>)
        ensures
            r@ == self.tags_view(),
    {
        &self.0
    }

    /// The tags of the set as a sequence.
    pub closed spec fn tags_view(&self) -> Seq<ImageTag> {
        self.0@
    }
}

/// A tag: its name, a label to show, and a description. Two tags are equal when they
/// have the same name.
#[derive(Debug, Eq)]
pub struct Tag {
    pub tag_name: String,
    pub tag_label: String,
    pub tag_description: String,
}

impl PartialEq for Tag {
    fn eq(&self, other: &Self) -> (r: bool) {
        self.tag_name == other.tag_name
    }
}

impl vstd::std_specs::cmp::PartialEqSpecImpl for Tag {
    open spec fn obeys_eq_spec() -> bool {
        true
    }

    open spec fn eq_spec(&self, other: &Self) -> bool {
        self.tag_name@ == other.tag_name@
    }
}

impl Tag {
    /// The value of the column `field`: the name, label or description; `None` for
    /// any other name.
    pub fn get_field(&self, field: &str) -> (r: Option<String>)
        ensures
            crate::text::opt_view(r) == tag_field(*self, field@),
    {
        if crate::text::str_eq(field, "tag_name") {
            Some(self.tag_name.clone())
        } else if crate::text::str_eq(field, "tag_label") {
            Some(self.tag_label.clone())
        } else if crate::text::str_eq(field, "tag_description") {
            Some(self.tag_description.clone())
        } else {
            None
        }
    }

    /// `{tag_name} ({tag_label}) - {tag_description}`.
    pub fn to_string(&self) -> (r: String)
        ensures
            r@ == self.tag_name@ + " ("@ + self.tag_label@ + ") - "@ + self.tag_description@,
    {
        let mut r = concat3(self.tag_name.as_str(), " (", self.tag_label.as_str());
        r.append(") - ");
        r.append(self.tag_description.as_str());
        r
    }
}

/// How often a tag is used and which tags occur with it, with their counts.
#[derive(Debug)]
pub struct TagMetrics {
    pub tag: Tag,
    pub use_count: usize,
    pub related_tags: Vec<(Tag, usize)>,
}

/// `s` without the tags whose name an earlier tag of `s` already has.
pub open spec fn dedup_tag_names(s: Seq<Tag>) -> Seq<Tag>
    decreases s.len(),
{
    if s.len() == 0 {
        Seq::empty()
    } else {
        let d = dedup_tag_names(s.drop_last());
        if exists|j: int| 0 <= j < d.len() && (#[trigger] d[j]).tag_name@ == s.last().tag_name@ {
            d
        } else {
            d.push(s.last())
        }
    }
}

/// Whether no two tags of `s` have the same name.
pub open spec fn distinct_tag_names(s: Seq<Tag>) -> bool {
    forall|i: int, j: int|
        0 <= i < s.len() && 0 <= j < s.len() && i != j ==> (#[trigger] s[i]).tag_name@ != (
        #[trigger] s[j]).tag_name@
}

proof fn lemma_dedup_tag_names_distinct(s: Seq<Tag>)
    ensures
        distinct_tag_names(dedup_tag_names(s)),
    decreases s.len(),
{
    if s.len() > 0 {
        lemma_dedup_tag_names_distinct(s.drop_last());
    }
}

impl Tag {
    /// A field-for-field copy.
    pub fn copy(&self) -> (r: Self)
        ensures
            r == *self,
    {
        Tag {
            tag_name: self.tag_name.clone(),
            tag_label: self.tag_label.clone(),
            tag_description: self.tag_description.clone(),
        }
    }
}

/// The tags `tags` as a set: of tags with the same name, the first is kept.
pub fn distinct_tags_by_name(tags: Vec<Tag>) -> (r: Vec<Tag>)
    ensures
        r@ == dedup_tag_names(tags@),
        distinct_tag_names(r@),
{
    let mut d: Vec<Tag> = Vec::new();
    let n = tags.len();
    for i in 0..n
        invariant
            n == tags@.len(),
            d@ == dedup_tag_names(tags@.take(i as int)),
    {
        assert(tags@.take(i + 1).drop_last() == tags@.take(i as int));
        assert(tags@.take(i + 1).last() == tags@[i as int]);
        let mut found = false;
        for j in 0..d.len()
            invariant
                n == tags@.len(),
                i < n,
                d@ == dedup_tag_names(tags@.take(i as int)),
                found <==> exists|k: int| 0 <= k < j && (#[trigger] d@[k]).tag_name@ == tags@[i as int].tag_name@,
        {
            if crate::text::str_eq(d[j].tag_name.as_str(), tags[i].tag_name.as_str()) {
                assert(d@[j as int].tag_name@ == tags@[i as int].tag_name@);
                found = true;
            }
        }
        if !found {
            d.push(tags[i].copy());
        }
    }
    assert(tags@.take(n as int) == tags@);
    proof {
        lemma_dedup_tag_names_distinct(tags@);
    }
    d
}

impl TagMetrics {
    /// The metrics of the tag named `tag_name`: its description as found (a tag with
    /// that name and an empty label and description when none was found), how often it
    /// is used, and the tags that occur with it.
    pub fn new(tag_name: &str, tag_info: Option<Tag>, use_count: usize, related_tags: Vec<(Tag, usize)>) -> (r: Self)
        ensures
            match tag_info {
                Some(t) => r.tag == t,
                None => r.tag.tag_name@ == tag_name@ && r.tag.tag_label@ == Seq::<char>::empty()
                    && r.tag.tag_description@ == Seq::<char>::empty(),
            },
            r.use_count == use_count,
            r.related_tags == related_tags,
    {
        let tag = match tag_info {
            Some(t) => t,
            None => Tag { tag_name: crate::text::owned(tag_name), tag_label: String::new(), tag_description: String::new() },
        };
        TagMetrics { tag, use_count, related_tags }
    }
}

} // verus!
