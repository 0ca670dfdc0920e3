//! How an uploaded file's name is taken apart: its last path component, the
//! stem that becomes the display name, and the extension that names the blob.

use vstd::prelude::*;
use crate::text::{
    chars_of, find_last, last_index_of, lemma_last_index_of, lemma_last_index_of_absent,
    lemma_last_index_of_unique, slice_text,
};

verus! {

/// Whether `name` ends in what a path leaves out of account at its end: a
/// separator, or a component that is a single dot.
pub open spec fn ends_in_filler(name: Seq<char>) -> bool {
    name.len() > 0 && (name.last() == '/' || (name.last() == '.' && (name.len() == 1
        || name[name.len() - 2] == '/')))
}

/// `name` without the separators and the single-dot components at its end.
pub open spec fn without_filler(name: Seq<char>) -> Seq<char>
    decreases name.len(),
{
    if ends_in_filler(name) {
        without_filler(name.drop_last())
    } else {
        name
    }
}

/// What follows the last `/` of `path`; all of `path` where it holds none.
pub open spec fn last_component(path: Seq<char>) -> Seq<char> {
    match last_index_of(path, '/') {
        Some(i) => path.subrange(i + 1, path.len() as int),
        None => path,
    }
}

/// The last path component of `name`: separators and single-dot components
/// at the end of `name` are passed over, so that `clip.mp3`, `clip.mp3/` and
/// `dir/clip.mp3/.` all have the last component `clip.mp3`.
pub open spec fn base_name(name: Seq<char>) -> Seq<char> {
    last_component(without_filler(name))
}

/// Whether a last path component names a file: it is neither empty nor `.` nor `..`.
/// A name that ends in `..` has no file to name, and neither has one that is
/// all separators and single dots.
pub open spec fn names_a_file(base: Seq<char>) -> bool {
    base.len() > 0 && base != seq!['.'] && base != seq!['.', '.']
}

/// The position of the dot that parts stem and extension in a last path
/// component: its last dot, unless that is its first character.
pub open spec fn split_point(base: Seq<char>) -> Option<int> {
    if !names_a_file(base) {
        None
    } else {
        match last_index_of(base, '.') {
            Some(i) => if i == 0 {
                None
            } else {
                Some(i)
            },
            None => None,
        }
    }
}

/// The extension of a file name, without its dot: what follows the last dot of
/// the last path component. A name without a component that names a file, without
/// a dot in that component, or whose only dot comes first in it has none. A
/// component ending in a dot has the empty extension.
pub open spec fn extension_of(name: Seq<char>) -> Option<Seq<char>> {
    let base = base_name(name);
    match split_point(base) {
        Some(i) => Some(base.subrange(i + 1, base.len() as int)),
        None => None,
    }
}

/// The stem of a file name: its last path component up to the dot that parts off
/// the extension, or all of that component where there is no extension.
pub open spec fn stem_of(name: Seq<char>) -> Option<Seq<char>> {
    let base = base_name(name);
    if !names_a_file(base) {
        None
    } else {
        match split_point(base) {
            Some(i) => Some(base.subrange(0, i)),
            None => Some(base),
        }
    }
}

/// A file name as the upload pipeline reads it.
#[derive(Debug, PartialEq, Eq)]
pub struct NameParts {
    /// The name without its extension.
    pub stem: String,
    /// The extension, without the dot.
    pub extension: String,
}

/// Whether `v` holds a last path component that names a file.
fn component_names_a_file(v: &Vec<char>, from: usize) -> (r: bool)
    requires
        from <= v.len(),
    ensures
        r == names_a_file(v@.subrange(from as int, v.len() as int)),
{
    let n = v.len() - from;
    let ghost base = v@.subrange(from as int, v.len() as int);
    if n == 0 {
        false
    } else if n == 1 {
        let only_dot = v[from] == '.';
        proof {
            assert(base[0] == v@[from as int]);
            if only_dot {
                assert(base =~= seq!['.']);
            } else {
                assert(seq!['.'][0] == '.');
            }
        }
        !only_dot
    } else if n == 2 {
        let two_dots = v[from] == '.' && v[from + 1] == '.';
        proof {
            assert(base[0] == v@[from as int]);
            assert(base[1] == v@[from + 1]);
            if two_dots {
                assert(base =~= seq!['.', '.']);
            } else {
                assert(seq!['.', '.'][0] == '.');
                assert(seq!['.', '.'][1] == '.');
            }
        }
        !two_dots
    } else {
        true
    }
}

/// Whether the characters of `v` end in a separator or a single-dot component.
fn has_filler_at_end(v: &Vec<char>) -> (r: bool)
    ensures
        r == ends_in_filler(v@),
{
    let n = v.len();
    if n == 0 {
        false
    } else if v[n - 1] == '/' {
        true
    } else if v[n - 1] == '.' {
        n == 1 || v[n - 2] == '/'
    } else {
        false
    }
}

/// Parts `name` into stem and extension.
///
/// Returns the two exactly when the name has an extension; a name with an
/// extension always has a stem, and that stem is not empty.
pub fn split_name(name: &str) -> (r: Option<NameParts>)
    ensures
        match r {
            Some(parts) => extension_of(name@) == Some(parts.extension@) && stem_of(name@) == Some(
                parts.stem@,
            ),
            None => extension_of(name@) is None,
        },
{
    let mut v = chars_of(name);
    while has_filler_at_end(&v)
        invariant
            v@.len() <= name@.len(),
            v@ == name@.take(v@.len() as int),
            without_filler(v@) == without_filler(name@),
        decreases v.len(),
    {
        let ghost longer = v@;
        v.pop();
        proof {
            assert(v@ =~= longer.drop_last());
            assert(v@ =~= name@.take(v@.len() as int));
        }
    }
    let start: usize = match find_last(&v, '/') {
        Some(i) => i + 1,
        None => 0,
    };
    let ghost base = base_name(name@);
    proof {
        lemma_last_index_of(v@, '/');
        assert(base =~= v@.subrange(start as int, v.len() as int));
    }
    if !component_names_a_file(&v, start) {
        return None;
    }
    // The dot is searched in all that is left of the name: one that lies in
    // the last component is the last dot of that component too.
    match find_last(&v, '.') {
        Some(dot) => {
            proof {
                lemma_last_index_of(v@, '.');
                lemma_last_index_of(base, '.');
                if dot >= start {
                    assert(base[dot - start] == v@[dot as int]);
                    assert forall|j: int| dot - start < j < base.len() implies base[j] != '.' by {
                        assert(base[j] == v@[j + start]);
                    }
                    lemma_last_index_of_unique(base, '.', dot - start);
                } else {
                    assert forall|j: int| 0 <= j < base.len() implies base[j] != '.' by {
                        assert(base[j] == v@[j + start]);
                    }
                    lemma_last_index_of_absent(base, '.');
                }
            }
            if dot <= start {
                return None;
            }
            let stem = slice_text(name, start, dot);
            let extension = slice_text(name, dot + 1, v.len());
            proof {
                assert(stem@ =~= base.subrange(0, dot - start));
                assert(extension@ =~= base.subrange(dot - start + 1, base.len() as int));
            }
            Some(NameParts { stem, extension })
        },
        None => {
            proof {
                lemma_last_index_of(v@, '.');
                assert forall|j: int| 0 <= j < base.len() implies base[j] != '.' by {
                    assert(base[j] == v@[j + start]);
                }
                lemma_last_index_of_absent(base, '.');
            }
            None
        },
    }
}

/// A name with an extension has a stem, and the stem is not empty.
pub proof fn law_extension_implies_stem(name: Seq<char>)
    requires
        extension_of(name) is Some,
    ensures
        stem_of(name) is Some,
        stem_of(name)->0.len() > 0,
{
    lemma_last_index_of(base_name(name), '.');
}

/// Stem, dot and extension put together give the last path component back.
pub proof fn law_stem_dot_extension(name: Seq<char>)
    requires
        extension_of(name) is Some,
    ensures
        stem_of(name)->0 + seq!['.'] + extension_of(name)->0 == base_name(name),
{
    let base = base_name(name);
    lemma_last_index_of(base, '.');
    assert(stem_of(name)->0 + seq!['.'] + extension_of(name)->0 =~= base);
}

/// Separators and single-dot components at the end of a name do not count:
/// with a separator behind it, or a separator and a dot, a name has the stem
/// and the extension that it has without them.
pub proof fn law_trailing_filler_is_passed_over(name: Seq<char>)
    ensures
        base_name(name.push('/')) == base_name(name),
        base_name(name.push('/').push('.')) == base_name(name),
        extension_of(name.push('/')) == extension_of(name),
        stem_of(name.push('/')) == stem_of(name),
        extension_of(name.push('/').push('.')) == extension_of(name),
        stem_of(name.push('/').push('.')) == stem_of(name),
{
    let slash = name.push('/');
    let dot = slash.push('.');
    assert(slash.drop_last() =~= name);
    assert(dot.drop_last() =~= slash);
    assert(ends_in_filler(slash));
    assert(ends_in_filler(dot));
    assert(without_filler(slash) == without_filler(name));
    assert(without_filler(dot) == without_filler(slash));
}

/// An extension holds neither a dot nor a path separator.
pub proof fn lemma_extension_is_plain(name: Seq<char>)
    requires
        extension_of(name) is Some,
    ensures
        forall|i: int|
            0 <= i < extension_of(name)->0.len() ==> extension_of(name)->0[i] != '.'
                && extension_of(name)->0[i] != '/',
{
    let kept = without_filler(name);
    let base = base_name(name);
    let extension = extension_of(name)->0;
    lemma_last_index_of(kept, '/');
    lemma_last_index_of(base, '.');
    let dot = split_point(base)->0;
    assert forall|i: int| 0 <= i < extension.len() implies extension[i] != '.' && extension[i]
        != '/' by {
        assert(extension[i] == base[dot + 1 + i]);
        match last_index_of(kept, '/') {
            Some(slash) => {
                assert(base[dot + 1 + i] == kept[slash + 1 + dot + 1 + i]);
            },
            None => {},
        }
    }
}

} // verus!
