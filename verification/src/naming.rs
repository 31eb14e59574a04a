//! Deterministic output naming: the produced artifact is the input image's
//! base name with its extension stripped and the fixed output extension
//! appended, placed in the requested output directory. The name depends on
//! the file name alone, never on the image's contents.

use vstd::prelude::*;

verus! {

/// The index of the last `.` in `s`, or `-1` if `s` has none.
pub open spec fn last_dot(s: Seq<char>) -> int
    decreases s.len(),
{
    if s.len() == 0 {
        -1
    } else if s[s.len() - 1] == '.' {
        s.len() - 1
    } else {
        last_dot(s.drop_last())
    }
}

/// The stem of a file name: everything before the final `.`, unless the
/// only `.` is the leading character (a hidden file keeps its full name).
pub open spec fn stem_of(s: Seq<char>) -> Seq<char> {
    if last_dot(s) >= 1 {
        s.take(last_dot(s))
    } else {
        s
    }
}

/// The fixed extension of the produced artifact.
pub open spec fn artifact_suffix() -> Seq<char> {
    ".8xg"@
}

/// The artifact's file name: the stem of the image file's name with the
/// fixed output extension, with a fallback base name where the stem is
/// empty.
pub open spec fn artifact_name(s: Seq<char>) -> Seq<char> {
    if stem_of(s).len() == 0 {
        "image"@ + artifact_suffix()
    } else {
        stem_of(s) + artifact_suffix()
    }
}

proof fn lemma_last_dot_at(s: Seq<char>, d: int)
    requires
        0 <= d < s.len(),
        s[d] == '.',
        forall|k: int| d < k < s.len() ==> s[k] != '.',
    ensures
        last_dot(s) == d,
    decreases s.len(),
{
    if d < s.len() - 1 {
        lemma_last_dot_at(s.drop_last(), d);
    }
}

proof fn lemma_last_dot_none(s: Seq<char>)
    requires
        forall|k: int| 0 <= k < s.len() ==> s[k] != '.',
    ensures
        last_dot(s) == -1,
    decreases s.len(),
{
    if s.len() > 0 {
        lemma_last_dot_none(s.drop_last());
    }
}

/// Derives the artifact's file name from the image file's name: the stem
/// (extension stripped) with the fixed output extension appended.
pub fn output_file_name(image_file_name: &str) -> (r: String)
    ensures
        r@ == artifact_name(image_file_name@),
{
    let len = image_file_name.unicode_len();
    let mut j: usize = len;
    let mut found: bool = false;
    while !found && j > 0
        invariant
            j <= len,
            len == image_file_name@.len(),
            forall|k: int| j <= k < len ==> image_file_name@[k] != '.',
            found ==> 1 <= j && image_file_name@[j - 1] == '.',
        decreases (if found { 0int } else { 1int }), j,
    {
        if image_file_name.get_char(j - 1) == '.' {
            found = true;
        } else {
            j -= 1;
        }
    }
    if found && j >= 2 {
        proof {
            lemma_last_dot_at(image_file_name@, j - 1);
        }
        let stem = image_file_name.substring_char(0, j - 1);
        String::from_str(stem).concat(".8xg")
    } else {
        proof {
            if found {
                lemma_last_dot_at(image_file_name@, 0);
            } else {
                lemma_last_dot_none(image_file_name@);
            }
        }
        if len == 0 {
            String::from_str("image").concat(".8xg")
        } else {
            String::from_str(image_file_name).concat(".8xg")
        }
    }
}

/// Derives the artifact's full path: the requested output directory, a
/// path separator, and the artifact's file name.
pub fn output_path(out_dir: &str, image_file_name: &str) -> (r: String)
    ensures
        r@ == out_dir@ + "/"@ + artifact_name(image_file_name@),
{
    let name = output_file_name(image_file_name);
    String::from_str(out_dir).concat("/").concat(name.as_str())
}

} // verus!
