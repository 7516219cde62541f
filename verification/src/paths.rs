//! Paths and their parts.

use vstd::prelude::*;

verus! {

/// What a path is when another one is joined to it.
pub uninterp spec fn joined(base: Seq<char>, part: Seq<char>) -> Seq<char>;

/// A character that means nothing special in a path.
pub open spec fn is_plain_char(c: char) -> bool {
    ('a' <= c && c <= 'z') || ('A' <= c && c <= 'Z') || ('0' <= c && c <= '9') || c == '-' || c
        == '_' || c == '.'
}

/// A name that means nothing special in a path: it is neither the directory itself nor the
/// one that it is in.
pub open spec fn is_plain_name(name: Seq<char>) -> bool {
    &&& name.len() > 0
    &&& forall|i: int| 0 <= i < name.len() ==> is_plain_char(#[trigger] name[i])
    &&& exists|i: int| 0 <= i < name.len() && #[trigger] name[i] != '.'
}

/// Calls `camino::Utf8Path::join`: `base` with `part` adjoined to it. A plain name is then the
/// name of the file at the end of the path. How separators and absolute parts are treated is
/// left to that crate.
#[verifier::external_body]
pub(crate) fn join_paths(base: &str, part: &str) -> (r: String)
    ensures
        r@ == joined(base@, part@),
        is_plain_name(part@) ==> file_name_of(r@) == Some(part@),
{
    camino::Utf8Path::new(base).join(part).into_string()
}

/// Two paths have the same components.
pub uninterp spec fn same_components(a: Seq<char>, b: Seq<char>) -> bool;

/// Calls `camino::Utf8Path::eq`: paths are compared by their components, so that separators
/// which are repeated or stand at the end do not tell them apart. A path is the same as itself.
#[verifier::external_body]
pub(crate) fn is_same_path(a: &str, b: &str) -> (r: bool)
    ensures
        r == same_components(a@, b@),
        a@ == b@ ==> r,
{
    camino::Utf8Path::new(a) == camino::Utf8Path::new(b)
}

/// The name of the file at the end of a path, if there is one.
pub uninterp spec fn file_name_of(path: Seq<char>) -> Option<Seq<char>>;

/// Calls `std::path::Path::file_name`.
#[verifier::external_body]
pub(crate) fn file_name(path: &str) -> (r: Option<String>)
    ensures
        match r {
            Some(name) => file_name_of(path@) == Some(name@),
            None => file_name_of(path@) is None,
        },
{
    std::path::Path::new(path).file_name().and_then(|s| s.to_str()).map(|s| s.to_owned())
}

/// Where the last dot of a name is, if it has one.
pub open spec fn last_dot(name: Seq<char>) -> Option<int>
    decreases name.len(),
{
    if name.len() == 0 {
        None
    } else if name.last() == '.' {
        Some(name.len() - 1)
    } else {
        last_dot(name.drop_last())
    }
}

/// The parts of a file's name before and after its last dot. A dot that the name begins with
/// does not count.
pub open spec fn name_parts(name: Seq<char>) -> (Seq<char>, Option<Seq<char>>) {
    match last_dot(name) {
        Some(i) => if i > 0 {
            (name.take(i), Some(name.skip(i + 1)))
        } else {
            (name, None)
        },
        None => (name, None),
    }
}

/// The name of the file at the end of a path without its extension, if there is one.
pub open spec fn stem_of(path: Seq<char>) -> Option<Seq<char>> {
    match file_name_of(path) {
        Some(name) => Some(name_parts(name).0),
        None => None,
    }
}

/// The extension of the file at the end of a path, if it has one.
pub open spec fn extension_of(path: Seq<char>) -> Option<Seq<char>> {
    match file_name_of(path) {
        Some(name) => name_parts(name).1,
        None => None,
    }
}

/// Calls `std::path::Path::file_stem`: the file's name up to its last dot, or all of it if it
/// has none but one that it begins with.
#[verifier::external_body]
pub(crate) fn file_stem(path: &str) -> (r: Option<String>)
    ensures
        match r {
            Some(stem) => stem_of(path@) == Some(stem@),
            None => stem_of(path@) is None,
        },
{
    std::path::Path::new(path).file_stem().and_then(|s| s.to_str()).map(|s| s.to_owned())
}

/// Calls `std::path::Path::extension`: what follows the last dot of the file's name, unless the
/// name begins with that dot.
#[verifier::external_body]
pub(crate) fn extension(path: &str) -> (r: Option<String>)
    ensures
        match r {
            Some(ext) => extension_of(path@) == Some(ext@),
            None => extension_of(path@) is None,
        },
{
    std::path::Path::new(path).extension().and_then(|s| s.to_str()).map(|s| s.to_owned())
}

/// A name and an extension put together are parted as they were put together, whatever the
/// name is, as long as there is one and there is no dot in the extension.
pub proof fn law_name_and_extension_come_apart(stem: Seq<char>, ext: Seq<char>)
    requires
        stem.len() > 0,
        !ext.contains('.'),
    ensures
        name_parts(stem + seq!['.'] + ext) == (stem, Some(ext)),
{
    let name = stem + seq!['.'] + ext;
    lemma_last_dot(stem, ext);
    assert(name.take(stem.len() as int) =~= stem);
    assert(name.skip(stem.len() as int + 1) =~= ext);
}

proof fn lemma_last_dot(stem: Seq<char>, ext: Seq<char>)
    requires
        !ext.contains('.'),
    ensures
        last_dot(stem + seq!['.'] + ext) == Some(stem.len() as int),
    decreases ext.len(),
{
    let name = stem + seq!['.'] + ext;
    if ext.len() == 0 {
        assert(name.last() == '.');
    } else {
        let shorter = ext.drop_last();
        assert(name.last() == ext.last());
        assert(ext.contains(ext.last()));
        assert forall|c: char| shorter.contains(c) implies ext.contains(c) by {
            let i = choose|i: int| 0 <= i < shorter.len() && shorter[i] == c;
            assert(ext[i] == c);
        }
        assert(name.drop_last() =~= stem + seq!['.'] + shorter);
        lemma_last_dot(stem, shorter);
    }
}

/// A plain name stays plain with an extension that is plain.
pub proof fn lemma_plain_with_extension(stem: Seq<char>, ext: Seq<char>)
    requires
        is_plain_name(stem),
        forall|i: int| 0 <= i < ext.len() ==> is_plain_char(#[trigger] ext[i]),
    ensures
        is_plain_name(stem + seq!['.'] + ext),
{
    let name = stem + seq!['.'] + ext;
    let i = choose|i: int| 0 <= i < stem.len() && #[trigger] stem[i] != '.';
    assert(name[i] == stem[i]);
    assert forall|j: int| 0 <= j < name.len() implies is_plain_char(#[trigger] name[j]) by {
        if j < stem.len() {
            assert(name[j] == stem[j]);
        } else if j > stem.len() {
            assert(name[j] == ext[j - stem.len() - 1]);
        }
    }
}

/// The directory that a path is in, if there is one.
pub uninterp spec fn parent_of(path: Seq<char>) -> Option<Seq<char>>;

/// Calls `std::path::Path::parent`.
#[verifier::external_body]
pub(crate) fn parent(path: &str) -> (r: Option<String>)
    ensures
        match r {
            Some(dir) => parent_of(path@) == Some(dir@),
            None => parent_of(path@) is None,
        },
{
    std::path::Path::new(path).parent().and_then(|p| p.to_str()).map(|p| p.to_owned())
}

/// A name without a dot, or with none but one that it begins with, has no extension.
pub proof fn law_names_without_extension(name: Seq<char>)
    requires
        !name.contains('.'),
    ensures
        name_parts(name) == (name, None::<Seq<char>>),
        name_parts(seq!['.'] + name) == (seq!['.'] + name, None::<Seq<char>>),
{
    lemma_no_dot(name);
    lemma_last_dot(Seq::empty(), name);
    assert(Seq::<char>::empty() + seq!['.'] + name =~= seq!['.'] + name);
}

proof fn lemma_no_dot(name: Seq<char>)
    requires
        !name.contains('.'),
    ensures
        last_dot(name) is None,
    decreases name.len(),
{
    if name.len() > 0 {
        let shorter = name.drop_last();
        assert(name[name.len() - 1] != '.');
        assert(!shorter.contains('.')) by {
            if shorter.contains('.') {
                let i = choose|i: int| 0 <= i < shorter.len() && shorter[i] == '.';
                assert(name[i] == '.');
            }
        }
        lemma_no_dot(shorter);
    }
}

} // verus!
