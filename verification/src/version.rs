use vstd::prelude::*;

use crate::errors::IndexError;

verus! {

/// Index of the first `.` in `v`, or `v.len()` if there is none.
pub open spec fn dot_index(v: Seq<char>) -> int
    decreases v.len(),
{
    if v.len() == 0 {
        0
    } else if v[0] == '.' {
        0
    } else {
        1 + dot_index(v.drop_first())
    }
}

/// The first dot-delimited segment of a version string.
pub open spec fn first_segment(v: Seq<char>) -> Seq<char> {
    v.take(dot_index(v))
}

/// `s` with every literal `v` character removed.
pub open spec fn strip_v(s: Seq<char>) -> Seq<char>
    decreases s.len(),
{
    if s.len() == 0 {
        Seq::<char>::empty()
    } else if s.last() == 'v' {
        strip_v(s.drop_last())
    } else {
        strip_v(s.drop_last()).push(s.last())
    }
}

/// The derived major version: the first dot-delimited segment of the version
/// string, with every literal `v` character removed.
pub open spec fn major_version_spec(v: Seq<char>) -> Seq<char> {
    strip_v(first_segment(v))
}

proof fn lemma_dot_index_bounds(v: Seq<char>)
    ensures
        0 <= dot_index(v) <= v.len(),
        forall|j: int| 0 <= j < dot_index(v) ==> v[j] != '.',
        dot_index(v) < v.len() ==> v[dot_index(v)] == '.',
    decreases v.len(),
{
    if v.len() != 0 && v[0] != '.' {
        lemma_dot_index_bounds(v.drop_first());
        assert forall|j: int| 0 <= j < dot_index(v) implies v[j] != '.' by {
            if j > 0 {
                assert(v.drop_first()[j - 1] != '.');
            }
        }
    }
}

/// The dot index is pinned by its characterization: if nothing before `i` is a
/// dot and either `i` is the length or position `i` is a dot, then `i` is it.
proof fn lemma_dot_index_is(v: Seq<char>, i: int)
    requires
        0 <= i <= v.len(),
        forall|j: int| 0 <= j < i ==> v[j] != '.',
        i < v.len() ==> v[i] == '.',
    ensures
        dot_index(v) == i,
    decreases v.len(),
{
    if i == 0 {
        if v.len() > 0 && v[0] != '.' {
            lemma_dot_index_bounds(v);
        }
    } else {
        assert(v[0] != '.');
        assert forall|j: int| 0 <= j < i - 1 implies v.drop_first()[j] != '.' by {
            assert(v[j + 1] != '.');
        }
        assert(i - 1 < v.drop_first().len() ==> v.drop_first()[i - 1] == '.');
        lemma_dot_index_is(v.drop_first(), i - 1);
    }
}

proof fn lemma_strip_v_is_filter(s: Seq<char>)
    ensures
        strip_v(s) == s.filter(|c: char| c != 'v'),
    decreases s.len(),
{
    reveal(Seq::filter);
    if s.len() == 0 {
        assert(s.filter(|c: char| c != 'v') =~= Seq::<char>::empty());
    } else {
        lemma_strip_v_is_filter(s.drop_last());
    }
}

/// The first dot-delimited segment is the prefix of the version string up to
/// (but not including) its first dot: it copies the string's characters, none
/// of them is a dot, and it ends at a dot or at the end of the string.
pub proof fn lemma_first_segment_characterized(v: Seq<char>)
    ensures
        first_segment(v).len() <= v.len(),
        forall|j: int|
            0 <= j < first_segment(v).len() ==> first_segment(v)[j] == v[j] && v[j] != '.',
        first_segment(v).len() < v.len() ==> v[first_segment(v).len() as int] == '.',
{
    lemma_dot_index_bounds(v);
}

/// The derived major version strips every literal `v` character from the
/// first dot-delimited segment of the version string and changes nothing
/// else: it is exactly that segment filtered free of `v`.
pub proof fn lemma_major_version_strips(v: Seq<char>)
    ensures
        major_version_spec(v) == first_segment(v).filter(|c: char| c != 'v'),
{
    lemma_strip_v_is_filter(first_segment(v));
}

/// Relies on alloc's `String::push`: appends exactly one character.
pub assume_specification[ String::push ](s: &mut String, c: char)
    ensures
        final(s)@ == old(s)@.push(c),
;

/// Derive the major version from a dotted version string: take the first
/// dot-delimited segment and remove every literal `v` character from it.
/// Errors with `InvalidVersion` exactly when that result is empty.
pub fn major_version(version: &str) -> (r: Result<String, IndexError>)
    ensures
        major_version_spec(version@).len() > 0 ==> (r matches Ok(m) && m@ == major_version_spec(
            version@,
        )),
        major_version_spec(version@).len() == 0 ==> (r matches Err(e) && e is InvalidVersion),
{
    let n = version.unicode_len();
    let mut d: usize = 0;
    while d < n && version.get_char(d) != '.'
        invariant
            version@.len() == n,
            d <= n,
            forall|j: int| 0 <= j < d ==> version@[j] != '.',
        decreases n - d,
    {
        d += 1;
    }
    proof {
        lemma_dot_index_is(version@, d as int);
    }
    let mut out = String::new();
    let mut i: usize = 0;
    while i < d
        invariant
            version@.len() == n,
            d <= n,
            i <= d,
            out@ == strip_v(version@.take(i as int)),
        decreases d - i,
    {
        let c = version.get_char(i);
        if c != 'v' {
            out.push(c);
        }
        proof {
            assert(version@.take(i + 1).drop_last() =~= version@.take(i as int));
            assert(version@.take(i + 1).last() == version@[i as int]);
        }
        i += 1;
    }
    assert(out@ == major_version_spec(version@));
    if out.as_str().unicode_len() == 0 {
        Err(IndexError::InvalidVersion)
    } else {
        Ok(out)
    }
}

} // verus!
