//! Reference strings and the names they point at.

use vstd::prelude::*;

verus! {

/// The position in `s` just behind its last `'/'`, or 0 where `s` holds none.
pub open spec fn segment_start(s: Seq<char>) -> nat
    decreases s.len(),
{
    if s.len() == 0 {
        0
    } else if s.last() == '/' {
        s.len()
    } else {
        segment_start(s.drop_last())
    }
}

/// The final path segment of `s`: what follows its last `'/'`, or all of `s`
/// where it holds none.
pub open spec fn last_segment(s: Seq<char>) -> Seq<char> {
    s.subrange(segment_start(s) as int, s.len() as int)
}

/// `segment_start` never points past the end.
pub proof fn lemma_segment_start_bounds(s: Seq<char>)
    ensures
        segment_start(s) <= s.len(),
    decreases s.len(),
{
    if s.len() > 0 && s.last() != '/' {
        lemma_segment_start_bounds(s.drop_last());
    }
}

/// The last segment of `s` begins at `k` where nothing from `k` on is a
/// `'/'` and `k` is the start of `s` or stands just behind a `'/'`.
pub proof fn lemma_segment_start_unique(s: Seq<char>, k: int)
    requires
        0 <= k <= s.len(),
        forall|i: int| k <= i < s.len() ==> s[i] != '/',
        k == 0 || s[k - 1] == '/',
    ensures
        segment_start(s) == k,
    decreases s.len(),
{
    if s.len() > 0 && k < s.len() {
        lemma_segment_start_unique(s.drop_last(), k);
    }
}

/// What the last segment is: the one suffix of `s` that holds no `'/'` and
/// that either is all of `s` or stands just behind a `'/'`.
pub proof fn lemma_last_segment_is_longest_plain_suffix(s: Seq<char>)
    ensures
        segment_start(s) <= s.len(),
        s == s.take(segment_start(s) as int) + last_segment(s),
        !last_segment(s).contains('/'),
        segment_start(s) == 0 || s[segment_start(s) - 1] == '/',
    decreases s.len(),
{
    lemma_segment_start_bounds(s);
    let start = segment_start(s) as int;
    assert(s =~= s.take(start) + last_segment(s));
    if s.len() > 0 && s.last() != '/' {
        let front = s.drop_last();
        lemma_last_segment_is_longest_plain_suffix(front);
        assert(last_segment(s) =~= last_segment(front).push(s.last()));
        assert forall|i: int| 0 <= i < last_segment(s).len() implies last_segment(s)[i]
            != '/' by {
            if i < last_segment(front).len() {
                assert(last_segment(front).contains(last_segment(front)[i]));
            }
        }
    }
}

/// A name without `'/'` is its own last segment.
pub proof fn lemma_last_segment_of_plain_name(name: Seq<char>)
    requires
        !name.contains('/'),
    ensures
        last_segment(name) == name,
{
    assert forall|i: int| 0 <= i < name.len() implies name[i] != '/' by {
        assert(name.contains(name[i]));
    }
    lemma_segment_start_unique(name, 0);
    assert(name.subrange(0, name.len() as int) =~= name);
}

/// The last segment of a path that ends in `'/'` and a name without `'/'`
/// is that name, whatever stands before.
pub proof fn lemma_last_segment_of_path(prefix: Seq<char>, name: Seq<char>)
    requires
        !name.contains('/'),
    ensures
        last_segment(prefix.push('/') + name) == name,
{
    let s = prefix.push('/') + name;
    let k = prefix.len() as int + 1;
    assert forall|i: int| k <= i < s.len() implies s[i] != '/' by {
        assert(s[i] == name[i - k]);
        assert(name.contains(name[i - k]));
    }
    assert(s[k - 1] == '/');
    lemma_segment_start_unique(s, k);
    assert(s.subrange(k, s.len() as int) =~= name);
}

/// The name that a reference string points at: its final path segment.
pub fn reference_name(reference: &str) -> (name: String)
    ensures
        name@ == last_segment(reference@),
{
    let len: usize = reference.unicode_len();
    let mut start: usize = 0;
    let mut pos: usize = 0;
    for c in it: reference.chars()
        invariant
            it.seq() == reference@,
            len == reference@.len(),
            pos == it.index(),
            start == segment_start(reference@.take(pos as int)),
    {
        proof {
            assert(reference@.take(pos + 1).drop_last() == reference@.take(pos as int));
        }
        pos = pos + 1;
        if c == '/' {
            start = pos;
        }
    }
    proof {
        assert(reference@.take(pos as int) == reference@);
        lemma_segment_start_bounds(reference@);
    }
    reference.substring_char(start, len).to_owned()
}

} // verus!
