//! Recognising image and text files by their extension, and rebasing paths.

use vstd::prelude::*;
use crate::text::{concat2, ends_with, seq_ends_with, seq_starts_with, starts_with, to_lowercase, lowercase_of};

verus! {

/// The extensions of the image files the server catalogues.
pub const IMAGE_EXTENSIONS: [&'static str; 6] = ["jpg", "jpeg", "png", "bmp", "gif", "webp"];

/// The extensions of the text files that hold exported OCR text.
pub const TEXT_EXTENSIONS: [&'static str; 1] = ["txt"];

/// Whether the lower-case form of `name` ends with a dot followed by one of `exts`.
pub open spec fn has_extension_spec(name: Seq<char>, exts: Seq<&str>) -> bool {
    exists|i: int| 0 <= i < exts.len() && #[trigger] seq_ends_with(lowercase_of(name), seq!['.'] + exts[i]@)
}

/// Whether `file_name`, compared without regard to case, ends with `.` and one of
/// `extensions`.
pub fn has_extension(file_name: &str, extensions: &[&str]) -> (r: bool)
    ensures
        r == has_extension_spec(file_name@, extensions@),
{
    let lower = to_lowercase(file_name);
    let n = extensions.len();
    for i in 0..n
        invariant
            n == extensions@.len(),
            lower@ == lowercase_of(file_name@),
            forall|k: int| 0 <= k < i ==> !#[trigger] seq_ends_with(lowercase_of(file_name@), seq!['.'] + extensions@[k]@),
    {
        let dotted = concat2(".", extensions[i]);
        proof {
            reveal_strlit(".");
        }
        assert(dotted@ == seq!['.'] + extensions@[i as int]@);
        if ends_with(lower.as_str(), dotted.as_str()) {
            return true;
        }
    }
    false
}

/// `f` with its leading `old_base` replaced by `new_base`, when it starts with `old_base`.
pub open spec fn rebased(f: Seq<char>, old_base: Seq<char>, new_base: Seq<char>) -> Option<Seq<char>> {
    if seq_starts_with(f, old_base) {
        Some(new_base + f.skip(old_base.len() as int))
    } else {
        None
    }
}

/// `f` moved from under `old_base` to under `new_base`; `None` when `f` does not start
/// with `old_base`.
pub fn change_base_path(f: &str, old_base: &str, new_base: &str) -> (r: Option<String>)
    ensures
        match r {
            Some(p) => rebased(f@, old_base@, new_base@) == Some(p@),
            None => rebased(f@, old_base@, new_base@) is None,
        },
{
    if starts_with(f, old_base) {
        let tail = f.substring_char(old_base.unicode_len(), f.unicode_len());
        assert(tail@ == f@.skip(old_base@.len() as int));
        Some(concat2(new_base, tail))
    } else {
        None
    }
}

/// The rebased forms of the paths of `files` that start with `base`, in order.
pub open spec fn rebased_all(files: Seq<Seq<char>>, old_base: Seq<char>, new_base: Seq<char>) -> Seq<Seq<char>>
    decreases files.len(),
{
    if files.len() == 0 {
        Seq::empty()
    } else {
        let rest = rebased_all(files.drop_last(), old_base, new_base);
        match rebased(files.last(), old_base, new_base) {
            Some(p) => rest.push(p),
            None => rest,
        }
    }
}

/// The paths of `files` that lie under `old_base`, each moved to lie under `new_base`;
/// the others are left out. This never fails.
pub fn change_base_path_of_paths(files: Vec<String>, old_base: String, new_base: String) -> (r: std::io::Result<Vec<String>>)
    ensures
        match r {
            Ok(v) => v@.map_values(|s: String| s@) == rebased_all(
                files@.map_values(|s: String| s@),
                old_base@,
                new_base@,
            ),
            Err(_) => false,
        },
{
    let mut out: Vec<String> = Vec::new();
    let n = files.len();
    for i in 0..n
        invariant
            n == files@.len(),
            out@.map_values(|s: String| s@) == rebased_all(
                files@.take(i as int).map_values(|s: String| s@),
                old_base@,
                new_base@,
            ),
    {
        let ghost before = files@.take(i as int).map_values(|s: String| s@);
        let ghost after = files@.take(i + 1).map_values(|s: String| s@);
        assert(after.drop_last() == before);
        assert(after.last() == files@[i as int]@);
        match change_base_path(files[i].as_str(), old_base.as_str(), new_base.as_str()) {
            Some(p) => {
                out.push(p);
                assert(out@.map_values(|s: String| s@) == rebased_all(before, old_base@, new_base@).push(p@));
            },
            None => {},
        }
    }
    assert(files@.take(n as int) == files@);
    Ok(out)
}

/// Moving a path from under one base to under another and back gives the path again.
pub proof fn lemma_rebase_back(f: Seq<char>, old_base: Seq<char>, new_base: Seq<char>)
    requires
        rebased(f, old_base, new_base) is Some,
    ensures
        rebased(rebased(f, old_base, new_base)->0, new_base, old_base) == Some(f),
{
    let g = new_base + f.skip(old_base.len() as int);
    assert(g.subrange(0, new_base.len() as int) == new_base);
    assert(g.skip(new_base.len() as int) == f.skip(old_base.len() as int));
    assert(old_base + f.skip(old_base.len() as int) == f);
}

/// Two paths under the same base that are moved to the same path are the same path.
pub proof fn lemma_rebased_injective(f: Seq<char>, g: Seq<char>, old_base: Seq<char>, new_base: Seq<char>)
    requires
        rebased(f, old_base, new_base) is Some,
        rebased(f, old_base, new_base) == rebased(g, old_base, new_base),
    ensures
        f == g,
{
    lemma_rebase_back(f, old_base, new_base);
    lemma_rebase_back(g, old_base, new_base);
}

/// Every rebased path is the rebased form of one of the given paths.
proof fn lemma_rebased_all_from(files: Seq<Seq<char>>, old_base: Seq<char>, new_base: Seq<char>, i: int)
    requires
        0 <= i < rebased_all(files, old_base, new_base).len(),
    ensures
        exists|j: int| 0 <= j < files.len() && rebased(#[trigger] files[j], old_base, new_base) == Some(
            rebased_all(files, old_base, new_base)[i],
        ),
    decreases files.len(),
{
    let init = files.drop_last();
    let rest = rebased_all(init, old_base, new_base);
    if i < rest.len() {
        lemma_rebased_all_from(init, old_base, new_base, i);
        let j = choose|j: int| 0 <= j < init.len() && rebased(#[trigger] init[j], old_base, new_base) == Some(rest[i]);
        assert(files[j] == init[j]);
    } else {
        assert(files[files.len() - 1] == files.last());
    }
}

/// Rebasing paths that are all different gives paths that are all different.
pub proof fn lemma_rebased_all_distinct(files: Seq<Seq<char>>, old_base: Seq<char>, new_base: Seq<char>)
    requires
        files.no_duplicates(),
    ensures
        rebased_all(files, old_base, new_base).no_duplicates(),
    decreases files.len(),
{
    if files.len() > 0 {
        let init = files.drop_last();
        let rest = rebased_all(init, old_base, new_base);
        assert forall|a: int, b: int| 0 <= a < init.len() && 0 <= b < init.len() && a != b implies init[a] != init[b] by {
            assert(init[a] == files[a] && init[b] == files[b]);
        }
        lemma_rebased_all_distinct(init, old_base, new_base);
        match rebased(files.last(), old_base, new_base) {
            Some(p) => {
                assert forall|i: int| 0 <= i < rest.len() implies rest[i] != p by {
                    lemma_rebased_all_from(init, old_base, new_base, i);
                    let j = choose|j: int| 0 <= j < init.len() && rebased(#[trigger] init[j], old_base, new_base) == Some(rest[i]);
                    if rest[i] == p {
                        lemma_rebased_injective(init[j], files.last(), old_base, new_base);
                        assert(files[j] == init[j]);
                        assert(files[files.len() - 1] == files.last());
                    }
                }
                let out = rest.push(p);
                assert forall|a: int, b: int| 0 <= a < out.len() && 0 <= b < out.len() && a != b implies out[a] != out[b] by {
                    if a < rest.len() && b < rest.len() {
                        assert(out[a] == rest[a] && out[b] == rest[b]);
                    } else if a < rest.len() {
                        assert(out[a] == rest[a]);
                    } else {
                        assert(out[b] == rest[b]);
                    }
                }
            },
            None => {},
        }
    }
}

} // verus!
