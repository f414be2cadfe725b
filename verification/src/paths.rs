//! Paths as text, in the form a Unix system writes them, and what the file
//! system holds at a path.

use crate::text::{chars_of, char_count, text_of};
use vstd::prelude::*;
use vstd::string::{StrSliceExecFns, StringExecFns};

verus! {

/// What the file system holds at a path.
#[derive(PartialEq, Eq, Structural, Debug, Clone, Copy)]
pub enum PathKind {
    /// Nothing.
    Missing,
    /// A regular file.
    File,
    /// A directory.
    Directory,
    /// Something else: a socket, a device, and the like.
    Other,
}

/// A path extended by a part. An absolute part replaces the path; otherwise
/// the part follows the path, after a separator if the path needs one.
pub open spec fn joined(base: Seq<char>, part: Seq<char>) -> Seq<char> {
    if part.len() > 0 && part[0] == '/' {
        part
    } else if base.len() == 0 || base.last() == '/' {
        base + part
    } else {
        base + seq!['/'] + part
    }
}

/// Extends a path by a part.
pub fn join(base: &str, part: &str) -> (path: String)
    ensures
        path@ == joined(base@, part@),
{
    let base_length = char_count(base);
    if char_count(part) > 0 && part.get_char(0) == '/' {
        part.to_owned()
    } else if base_length == 0 || base.get_char(base_length - 1) == '/' {
        let mut path = base.to_owned();
        path.append(part);
        path
    } else {
        let mut path = base.to_owned();
        path.append("/");
        path.append(part);
        proof {
            reveal_strlit("/");
            assert("/"@ =~= seq!['/']);
        }
        path
    }
}

/// The place of the last dot in a file name, or -1 where it has none.
pub open spec fn last_dot(name: Seq<char>) -> int
    decreases name.len(),
{
    if name.len() == 0 {
        -1
    } else if name.last() == '.' {
        name.len() - 1
    } else {
        last_dot(name.drop_last())
    }
}

/// A file name has an extension when a dot stands in it behind its first
/// character. The name `..` has none.
pub open spec fn has_extension(name: Seq<char>) -> bool {
    last_dot(name) > 0 && name != seq!['.', '.']
}

/// The extension of a file name: what follows its last dot.
pub open spec fn extension_of(name: Seq<char>) -> Option<Seq<char>> {
    if has_extension(name) {
        Some(name.subrange(last_dot(name) + 1, name.len() as int))
    } else {
        None
    }
}

/// The stem of a file name: what stands before the dot of its extension, or
/// the whole name where it has none.
pub open spec fn stem_of(name: Seq<char>) -> Seq<char> {
    if has_extension(name) {
        name.subrange(0, last_dot(name))
    } else {
        name
    }
}

/// A file name with its extension replaced: the stem, a dot and the new
/// extension.
pub open spec fn with_extension_of(name: Seq<char>, extension: Seq<char>) -> Seq<char> {
    stem_of(name) + seq!['.'] + extension
}

proof fn lemma_last_dot_bounds(name: Seq<char>)
    ensures
        -1 <= last_dot(name) < name.len(),
        last_dot(name) >= 0 ==> name[last_dot(name)] == '.',
    decreases name.len(),
{
    if name.len() > 0 && name.last() != '.' {
        lemma_last_dot_bounds(name.drop_last());
    }
}

/// Finds the dot of the extension in the characters of a file name.
fn extension_dot(chars: &Vec<char>) -> (dot: Option<usize>)
    ensures
        dot is Some <==> has_extension(chars@),
        dot matches Some(at) ==> at == last_dot(chars@) && 0 < at < chars.len(),
{
    let mut end: usize = chars.len();
    assert(chars@.subrange(0, end as int) =~= chars@);
    while end > 0 && chars[end - 1] != '.'
        invariant
            end <= chars.len(),
            last_dot(chars@) == last_dot(chars@.subrange(0, end as int)),
        decreases end,
    {
        assert(chars@.subrange(0, end as int).drop_last() =~= chars@.subrange(0, end - 1));
        end -= 1;
    }
    proof {
        lemma_last_dot_bounds(chars@);
    }
    if end <= 1 {
        None
    } else if chars.len() == 2 && chars[0] == '.' {
        assert(chars@ =~= seq!['.', '.']);
        None
    } else {
        assert(chars@ != seq!['.', '.']) by {
            if chars@ == seq!['.', '.'] {
                assert(seq!['.', '.'].len() == 2);
                assert(seq!['.', '.'][0] == '.');
            }
        }
        Some(end - 1)
    }
}

/// The extension of a file name, if it has one.
pub fn extension(name: &str) -> (found: Option<String>)
    ensures
        found is Some <==> extension_of(name@) is Some,
        found matches Some(text) ==> Some(text@) == extension_of(name@),
{
    let chars = chars_of(name);
    match extension_dot(&chars) {
        Some(at) => Some(text_of(&chars, at + 1, chars.len())),
        None => None,
    }
}

/// Replaces the extension of a file name, or gives it one.
pub fn with_extension(name: &str, extension: &str) -> (renamed: String)
    ensures
        renamed@ == with_extension_of(name@, extension@),
{
    let chars = chars_of(name);
    let mut renamed = match extension_dot(&chars) {
        Some(at) => text_of(&chars, 0, at),
        None => name.to_owned(),
    };
    renamed.push('.');
    renamed.append(extension);
    assert(renamed@ =~= with_extension_of(name@, extension@));
    renamed
}

/// The last component of a path, as `Path::file_name` of the standard
/// library reads it: none where the path ends in `..` or names a root.
pub uninterp spec fn final_component(path: Seq<char>) -> Option<Seq<char>>;

/// Calls `Path::file_name`. Trusted: the answer depends on the path alone.
#[verifier::external_body]
pub(crate) fn file_name(path: &str) -> (name: Option<String>)
    ensures
        name is Some <==> final_component(path@) is Some,
        name matches Some(text) ==> Some(text@) == final_component(path@),
{
    std::path::Path::new(path).file_name().map(|name| name.to_string_lossy().into_owned())
}

} // verus!
