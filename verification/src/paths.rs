//! Path-string helpers.
//!
//! Declarative files refer to one another by relative path; the two pieces of
//! path arithmetic the loaders need — the directory a path lives in, and a
//! file name stripped of directory and extension — are plain character logic
//! and are verified here.

use vstd::prelude::*;

verus! {

/// The last index of `needle` in `s`, if any.
pub open spec fn spec_last_index_of(s: Seq<char>, needle: char) -> Option<int>
    decreases s.len(),
{
    if s.len() == 0 {
        None
    } else if s[s.len() - 1] == needle {
        Some(s.len() - 1)
    } else {
        spec_last_index_of(s.drop_last(), needle)
    }
}

proof fn lemma_last_index_of_bounds(s: Seq<char>, needle: char)
    ensures
        match spec_last_index_of(s, needle) {
            Some(i) => 0 <= i < s.len() && s[i] == needle && (forall|j: int|
                i < j < s.len() ==> s[j] != needle),
            None => forall|j: int| 0 <= j < s.len() ==> s[j] != needle,
        },
    decreases s.len(),
{
    if s.len() > 0 {
        lemma_last_index_of_bounds(s.drop_last(), needle);
        assert forall|j: int| 0 <= j < s.len() - 1 implies s.drop_last()[j] == s[j] by {}
    }
}

/// Finds the last occurrence of `needle` in `s` by scanning from the end.
pub fn last_index_of(s: &str, needle: char) -> (r: Option<usize>)
    ensures
        match r {
            Some(i) => spec_last_index_of(s@, needle) == Some(i as int),
            None => spec_last_index_of(s@, needle) is None,
        },
{
    let len = s.unicode_len();
    let mut i = len;
    proof {
        assert(s@.take(len as int) =~= s@);
    }
    loop
        invariant
            i <= len,
            len == s@.len(),
            spec_last_index_of(s@, needle) == spec_last_index_of(s@.take(i as int), needle),
        decreases i,
    {
        if i == 0 {
            return None;
        }
        let c = s.get_char(i - 1);
        proof {
            assert(s@.take(i as int).drop_last() =~= s@.take(i as int - 1));
            assert(s@.take(i as int).last() == s@[i as int - 1]);
        }
        if c == needle {
            proof {
                lemma_last_index_of_bounds(s@, needle);
            }
            return Some(i - 1);
        }
        i = i - 1;
    }
}

/// The directory part of a path: everything before the last `/`, empty when
/// the path has no directory part.
pub open spec fn spec_parent_dir(s: Seq<char>) -> Seq<char> {
    match spec_last_index_of(s, '/') {
        Some(i) => s.take(i),
        None => Seq::empty(),
    }
}

/// Executable twin of [`spec_parent_dir`].
pub fn parent_dir(path: &str) -> (r: &str)
    ensures
        r@ == spec_parent_dir(path@),
{
    proof {
        lemma_last_index_of_bounds(path@, '/');
    }
    match last_index_of(path, '/') {
        Some(i) => path.substring_char(0, i),
        None => {
            let empty = "";
            proof {
                reveal_strlit("");
                assert(empty@ =~= Seq::<char>::empty());
            }
            empty
        },
    }
}

/// The file-stem of a path: the name after the last `/`, truncated at its
/// last `.` when that dot is not the name's first character.
pub open spec fn spec_file_stem(s: Seq<char>) -> Seq<char> {
    let name = match spec_last_index_of(s, '/') {
        Some(i) => s.skip(i + 1),
        None => s,
    };
    match spec_last_index_of(name, '.') {
        Some(j) => if j > 0 {
            name.take(j)
        } else {
            name
        },
        None => name,
    }
}

/// Executable twin of [`spec_file_stem`].
pub fn file_stem(path: &str) -> (r: &str)
    ensures
        r@ == spec_file_stem(path@),
{
    proof {
        lemma_last_index_of_bounds(path@, '/');
    }
    let len = path.unicode_len();
    let name = match last_index_of(path, '/') {
        Some(i) => path.substring_char(i + 1, len),
        None => path,
    };
    let name_len = name.unicode_len();
    proof {
        lemma_last_index_of_bounds(name@, '.');
    }
    match last_index_of(name, '.') {
        Some(j) => {
            if j > 0 {
                name.substring_char(0, j)
            } else {
                name
            }
        },
        None => name,
    }
}

} // verus!
