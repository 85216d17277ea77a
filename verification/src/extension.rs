//! The extension resolver: from a path to the extension of its file name.

use vstd::prelude::*;
use vstd::string::*;

verus! {

/// The final component of the path spelled by `path`, as
/// `std::path::Path::file_name` tells it on the platform this library is
/// built for; `None` where the path has no such component (it is empty, a
/// root, or ends in `..`).
pub uninterp spec fn file_name_of(path: Seq<char>) -> Option<Seq<char>>;

/// `part` stands somewhere in `whole`, as one unbroken run of characters.
pub open spec fn occurs_in(part: Seq<char>, whole: Seq<char>) -> bool {
    exists|i: int|
        0 <= i && i + part.len() <= whole.len() && #[trigger] whole.subrange(
            i,
            i + part.len(),
        ) == part
}

/// Calls `std::path::Path::file_name` on the path spelled by `path`.
///
/// Trusted: the result is the final component that the standard library
/// finds, named `file_name_of` above, and that component is a piece of the
/// path itself. The path is valid UTF-8, so the conversion of the component
/// back to a `String` changes no character.
#[verifier::external_body]
fn file_name(path: &str) -> (name: Option<String>)
    ensures
        name.deep_view() == file_name_of(path@),
        name matches Some(n) ==> occurs_in(n@, path@),
{
    match std::path::Path::new(path).file_name() {
        Some(name) => Some(name.to_string_lossy().into_owned()),
        None => None,
    }
}

/// `d` is the position of the last `.` in `name`.
pub open spec fn is_final_dot(name: Seq<char>, d: int) -> bool {
    &&& 0 <= d < name.len()
    &&& name[d] == '.'
    &&& forall|j: int| d < j < name.len() ==> name[j] != '.'
}

/// The extension of a file name: what follows its last `.`, provided that
/// dot is not the first character of the name.
///
/// A name without a dot has no extension, and neither has a name such as
/// `.profile`, whose only dot leads it. A name that ends in a dot, such as
/// `notes.`, has the empty extension. The characters are taken as they are.
pub open spec fn extension_in(name: Seq<char>) -> Option<Seq<char>> {
    if exists|d: int| 0 < d && is_final_dot(name, d) {
        let d = choose|d: int| 0 < d && is_final_dot(name, d);
        Some(name.skip(d + 1))
    } else {
        None
    }
}

/// The extension of a path: the extension of its file name. A path without
/// a file name has none.
pub open spec fn extension_of(path: Seq<char>) -> Option<Seq<char>> {
    match file_name_of(path) {
        Some(name) => extension_in(name),
        None => None,
    }
}

/// A name has at most one last dot.
pub proof fn lemma_final_dot_unique(name: Seq<char>, d1: int, d2: int)
    requires
        is_final_dot(name, d1),
        is_final_dot(name, d2),
    ensures
        d1 == d2,
{
}

/// Splits the extension off a file name.
pub fn extension_of_name(name: &str) -> (ext: Option<String>)
    ensures
        ext.deep_view() == extension_in(name@),
{
    let len = name.unicode_len();
    let mut dot: Option<usize> = None;
    let mut i: usize = 0;
    let chars = name.chars();
    for c in it: chars
        invariant
            it.seq() == name@,
            i == it.index(),
            len == name@.len(),
            match dot {
                Some(d) => d < i && name@[d as int] == '.' && forall|j: int|
                    d < j < i ==> name@[j] != '.',
                None => forall|j: int| 0 <= j < i ==> name@[j] != '.',
            },
    {
        if c == '.' {
            dot = Some(i);
        }
        i += 1;
    }
    match dot {
        Some(d) => {
            assert(is_final_dot(name@, d as int));
            if d == 0 {
                assert forall|e: int| 0 < e && is_final_dot(name@, e) implies false by {
                    lemma_final_dot_unique(name@, d as int, e);
                }
                None
            } else {
                proof {
                    let e = choose|e: int| 0 < e && is_final_dot(name@, e);
                    lemma_final_dot_unique(name@, d as int, e);
                }
                let tail = name.substring_char(d + 1, len);
                Some(tail.to_owned())
            }
        },
        None => None,
    }
}

/// An extension stands in its name right behind a dot, and holds no dot
/// itself.
pub proof fn lemma_extension_follows_dot(name: Seq<char>)
    requires
        extension_in(name) is Some,
    ensures
        !extension_in(name)->0.contains('.'),
        occurs_in(seq!['.'] + extension_in(name)->0, name),
{
    let ext = extension_in(name)->0;
    let d = choose|d: int| 0 < d && is_final_dot(name, d);
    assert forall|k: int| 0 <= k < ext.len() implies ext[k] != '.' by {
        assert(ext[k] == name[d + 1 + k]);
    }
    assert(name.subrange(d, d + (seq!['.'] + ext).len()) =~= seq!['.'] + ext);
}

/// A run of characters that stands in a part of `whole` stands in `whole`.
pub proof fn lemma_occurs_in_transitive(run: Seq<char>, part: Seq<char>, whole: Seq<char>)
    requires
        occurs_in(run, part),
        occurs_in(part, whole),
    ensures
        occurs_in(run, whole),
{
    let i = choose|i: int|
        0 <= i && i + run.len() <= part.len() && #[trigger] part.subrange(i, i + run.len())
            == run;
    let j = choose|j: int|
        0 <= j && j + part.len() <= whole.len() && #[trigger] whole.subrange(j, j + part.len())
            == part;
    assert(whole.subrange(j + i, j + i + run.len()) =~= part.subrange(i, i + run.len()));
}

/// Resolves the extension of a path, case preserved.
///
/// `None` means that the path has no extension; the dispatchers report that
/// as a missing extension. An extension that is found holds no dot and
/// stands in the path right behind one, so a path without a dot has none.
pub fn resolve_extension(path: &str) -> (ext: Option<String>)
    ensures
        ext.deep_view() == extension_of(path@),
        ext matches Some(e) ==> !e@.contains('.') && occurs_in(seq!['.'] + e@, path@),
        !path@.contains('.') ==> ext is None,
{
    match file_name(path) {
        Some(name) => {
            let ext = extension_of_name(name.as_str());
            proof {
                if ext is Some {
                    let run = seq!['.'] + ext->0@;
                    lemma_extension_follows_dot(name@);
                    lemma_occurs_in_transitive(run, name@, path@);
                    let i = choose|i: int|
                        0 <= i && i + run.len() <= path@.len() && #[trigger] path@.subrange(
                            i,
                            i + run.len(),
                        ) == run;
                    assert(path@[i] == path@.subrange(i, i + run.len())[0]);
                    assert(run[0] == '.');
                }
            }
            ext
        },
        None => None,
    }
}

} // verus!
