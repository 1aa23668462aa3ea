use vstd::prelude::*;
use crate::lit::{NL, PERCENT, pragma_mark_s};

verus! {

// ---------------------------------------------------------------------------
// Byte-level text operations used by the comment and operator formatters.
// Whitespace means ASCII whitespace: in UTF-8 no continuation byte collides
// with it, so trimming bytes never splits a multi-byte character.
// ---------------------------------------------------------------------------

pub open spec fn is_space(b: u8) -> bool {
    b == 32 || b == 9 || b == 10 || b == 13
}

pub fn byte_is_space(b: u8) -> (r: bool)
    ensures
        r == is_space(b),
{
    b == 32 || b == 9 || b == 10 || b == 13
}

pub open spec fn starts_with(s: Seq<u8>, p: Seq<u8>) -> bool {
    p.len() <= s.len() && s.subrange(0, p.len() as int) == p
}

pub open spec fn ends_with(s: Seq<u8>, p: Seq<u8>) -> bool {
    p.len() <= s.len() && s.subrange(s.len() - p.len(), s.len() as int) == p
}

/// A pragma (linter-directive) comment: its text begins with the pragma mark.
pub open spec fn is_pragma(s: Seq<u8>) -> bool {
    starts_with(s, pragma_mark_s())
}

pub open spec fn trim_start(s: Seq<u8>) -> Seq<u8>
    decreases s.len(),
{
    if s.len() > 0 && is_space(s[0]) {
        trim_start(s.drop_first())
    } else {
        s
    }
}

pub open spec fn trim_end(s: Seq<u8>) -> Seq<u8>
    decreases s.len(),
{
    if s.len() > 0 && is_space(s.last()) {
        trim_end(s.drop_last())
    } else {
        s
    }
}

/// Both ends trimmed of ASCII whitespace.
pub open spec fn trim(s: Seq<u8>) -> Seq<u8> {
    trim_end(trim_start(s))
}

/// The text with one leading `%` removed, if there is one.
pub open spec fn strip_percent(s: Seq<u8>) -> Seq<u8> {
    if s.len() > 0 && s[0] == PERCENT {
        s.drop_first()
    } else {
        s
    }
}

pub open spec fn find_byte_from(s: Seq<u8>, b: u8, i: int) -> Option<int>
    decreases s.len() - i,
{
    if i < 0 || i >= s.len() {
        None
    } else if s[i] == b {
        Some(i)
    } else {
        find_byte_from(s, b, i + 1)
    }
}

pub proof fn lemma_find_byte_in_range(s: Seq<u8>, b: u8, k: int, i: int)
    requires
        find_byte_from(s, b, k) == Some(i),
        0 <= k,
    ensures
        k <= i < s.len(),
        s[i] == b,
    decreases s.len() - k,
{
    if k < s.len() && s[k] != b {
        lemma_find_byte_in_range(s, b, k + 1, i);
    }
}

/// The lines of `s`, split on the newline byte; like splitting a string on
/// `'\n'`, an empty text yields one empty line and a trailing newline yields
/// a final empty line.
pub open spec fn split_lines(s: Seq<u8>) -> Seq<Seq<u8>>
    decreases s.len(),
    via split_lines_decreases
{
    match find_byte_from(s, NL, 0) {
        Some(i) => seq![s.subrange(0, i)] + split_lines(s.skip(i + 1)),
        None => seq![s],
    }
}

#[via_fn]
proof fn split_lines_decreases(s: Seq<u8>) {
    match find_byte_from(s, NL, 0) {
        Some(i) => lemma_find_byte_in_range(s, NL, 0, i),
        None => (),
    }
}

// ---------------------------------------------------------------------------
// Exec counterparts.
// ---------------------------------------------------------------------------

pub fn bytes_eq(a: &Vec<u8>, b: &Vec<u8>) -> (r: bool)
    ensures
        r == (a@ == b@),
{
    if a.len() != b.len() {
        return false;
    }
    let mut i: usize = 0;
    while i < a.len()
        invariant
            a@.len() == b@.len(),
            i <= a@.len(),
            forall|j: int| 0 <= j < i ==> a@[j] == b@[j],
        decreases a@.len() - i,
    {
        if a[i] != b[i] {
            return false;
        }
        i = i + 1;
    }
    proof {
        assert(a@ =~= b@);
    }
    true
}

pub fn has_prefix(s: &Vec<u8>, p: &Vec<u8>) -> (r: bool)
    ensures
        r == starts_with(s@, p@),
{
    if p.len() > s.len() {
        return false;
    }
    let mut i: usize = 0;
    while i < p.len()
        invariant
            p@.len() <= s@.len(),
            i <= p@.len(),
            forall|j: int| 0 <= j < i ==> s@[j] == p@[j],
        decreases p@.len() - i,
    {
        if s[i] != p[i] {
            proof {
                assert(s@.subrange(0, p@.len() as int)[i as int] == s@[i as int]);
            }
            return false;
        }
        i = i + 1;
    }
    proof {
        assert(s@.subrange(0, p@.len() as int) =~= p@);
    }
    true
}

pub fn has_suffix(s: &Vec<u8>, p: &Vec<u8>) -> (r: bool)
    ensures
        r == ends_with(s@, p@),
{
    if p.len() > s.len() {
        return false;
    }
    let off: usize = s.len() - p.len();
    let mut i: usize = 0;
    while i < p.len()
        invariant
            p@.len() <= s@.len(),
            s@.len() <= usize::MAX,
            off == s@.len() - p@.len(),
            i <= p@.len(),
            forall|j: int| 0 <= j < i ==> s@[off + j] == p@[j],
        decreases p@.len() - i,
    {
        if s[off + i] != p[i] {
            proof {
                assert(s@.subrange(s@.len() - p@.len(), s@.len() as int)[i as int] == s@[off + i]);
            }
            return false;
        }
        i = i + 1;
    }
    proof {
        assert(s@.subrange(s@.len() - p@.len(), s@.len() as int) =~= p@);
    }
    true
}

/// A fresh copy of `v[lo..hi]`.
pub fn sub_bytes(v: &Vec<u8>, lo: usize, hi: usize) -> (r: Vec<u8>)
    requires
        lo <= hi <= v@.len(),
    ensures
        r@ == v@.subrange(lo as int, hi as int),
{
    let mut r: Vec<u8> = Vec::new();
    let mut i: usize = lo;
    while i < hi
        invariant
            lo <= i <= hi <= v@.len(),
            r@ == v@.subrange(lo as int, i as int),
        decreases hi - i,
    {
        r.push(v[i]);
        i = i + 1;
        proof {
            assert(v@.subrange(lo as int, i as int) =~= v@.subrange(lo as int, i - 1).push(
                v@[i - 1],
            ));
        }
    }
    proof {
        assert(v@.subrange(lo as int, lo as int) =~= Seq::<u8>::empty());
    }
    r
}

pub fn trim_bytes(v: &Vec<u8>) -> (r: Vec<u8>)
    ensures
        r@ == trim(v@),
{
    proof {
        assert(v@.skip(0) =~= v@);
    }
    let mut lo: usize = 0;
    while lo < v.len() && byte_is_space(v[lo])
        invariant
            lo <= v@.len(),
            trim_start(v@) == trim_start(v@.skip(lo as int)),
        decreases v@.len() - lo,
    {
        proof {
            assert(v@.skip(lo as int).drop_first() =~= v@.skip(lo + 1));
        }
        lo = lo + 1;
    }
    proof {
        assert(trim_start(v@) == v@.skip(lo as int));
    }
    let mut hi: usize = v.len();
    while hi > lo && byte_is_space(v[hi - 1])
        invariant
            lo <= hi <= v@.len(),
            trim_start(v@) == v@.skip(lo as int),
            trim_end(v@.skip(lo as int)) == trim_end(v@.subrange(lo as int, hi as int)),
        decreases hi,
    {
        proof {
            assert(v@.subrange(lo as int, hi as int).last() == v@[hi - 1]);
            assert(v@.subrange(lo as int, hi as int).drop_last() =~= v@.subrange(
                lo as int,
                hi - 1,
            ));
        }
        hi = hi - 1;
    }
    proof {
        if hi > lo {
            assert(v@.subrange(lo as int, hi as int).last() == v@[hi - 1]);
        }
        assert(trim_end(v@.subrange(lo as int, hi as int)) == v@.subrange(lo as int, hi as int));
    }
    sub_bytes(v, lo, hi)
}

/// The text with one leading `%` removed, if there is one.
pub fn strip_percent_bytes(v: &Vec<u8>) -> (r: Vec<u8>)
    ensures
        r@ == strip_percent(v@),
{
    if v.len() > 0 && v[0] == PERCENT {
        let r = sub_bytes(v, 1, v.len());
        proof {
            assert(v@.subrange(1, v@.len() as int) =~= v@.drop_first());
        }
        r
    } else {
        sub_bytes(v, 0, v.len())
    }
}

pub fn split_lines_vec(v: &Vec<u8>) -> (r: Vec<Vec<u8>>)
    ensures
        views_of(r@) == split_lines(v@),
{
    let mut r: Vec<Vec<u8>> = Vec::new();
    proof {
        assert(v@.skip(0) =~= v@);
        assert(views_of(r@) =~= Seq::<Seq<u8>>::empty());
        assert(views_of(r@) + split_lines(v@) =~= split_lines(v@));
    }
    let mut start: usize = 0;
    let mut i: usize = 0;
    while i < v.len()
        invariant
            start <= i <= v@.len(),
            forall|j: int| start <= j < i ==> v@[j] != NL,
            split_lines(v@) == views_of(r@) + split_lines(v@.skip(start as int)),
        decreases v@.len() - i,
    {
        if v[i] == NL {
            let line = sub_bytes(v, start, i);
            proof {
                lemma_find_byte_skip(v@, start as int, i as int);
                assert(v@.skip(start as int).subrange(0, i - start) =~= v@.subrange(
                    start as int,
                    i as int,
                ));
                assert(v@.skip(start as int).skip(i - start + 1) =~= v@.skip(i + 1));
                assert(views_of(r@.push(line)) =~= views_of(r@) + seq![line@]);
            }
            r.push(line);
            start = i + 1;
        }
        i = i + 1;
    }
    let line = sub_bytes(v, start, v.len());
    proof {
        lemma_find_byte_none(v@, start as int);
        assert(v@.skip(start as int) =~= v@.subrange(start as int, v@.len() as int));
        assert(views_of(r@.push(line)) =~= views_of(r@) + seq![line@]);
        assert(views_of(r@) + seq![v@.skip(start as int)] =~= views_of(r@.push(line)));
    }
    r.push(line);
    r
}

pub open spec fn views_of(vs: Seq<Vec<u8>>) -> Seq<Seq<u8>> {
    vs.map_values(|v: Vec<u8>| v@)
}

proof fn lemma_find_byte_skip(s: Seq<u8>, start: int, i: int)
    requires
        0 <= start <= i < s.len(),
        forall|j: int| start <= j < i ==> s[j] != NL,
        s[i] == NL,
    ensures
        find_byte_from(s.skip(start), NL, 0) == Some(i - start),
{
    lemma_find_byte_scan(s.skip(start), 0, i - start);
}

proof fn lemma_find_byte_scan(t: Seq<u8>, k: int, target: int)
    requires
        0 <= k <= target < t.len(),
        forall|j: int| k <= j < target ==> t[j] != NL,
        t[target] == NL,
    ensures
        find_byte_from(t, NL, k) == Some(target),
    decreases target - k,
{
    if k < target {
        lemma_find_byte_scan(t, k + 1, target);
    }
}

proof fn lemma_find_byte_none(s: Seq<u8>, start: int)
    requires
        0 <= start <= s.len(),
        forall|j: int| start <= j < s.len() ==> s[j] != NL,
    ensures
        find_byte_from(s.skip(start), NL, 0) == None::<int>,
        split_lines(s.skip(start)) == seq![s.skip(start)],
{
    lemma_find_byte_none_scan(s.skip(start), 0);
}

proof fn lemma_find_byte_none_scan(t: Seq<u8>, k: int)
    requires
        0 <= k <= t.len(),
        forall|j: int| k <= j < t.len() ==> t[j] != NL,
    ensures
        find_byte_from(t, NL, k) == None::<int>,
    decreases t.len() - k,
{
    if k < t.len() {
        lemma_find_byte_none_scan(t, k + 1);
    }
}

} // verus!
