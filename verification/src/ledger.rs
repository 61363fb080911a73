use vstd::prelude::*;
use crate::intersections::Intersection;
use crate::scalar::Scalar;

verus! {

/// A key larger than the rank of every number: the key of a NaN.
pub const NAN_KEY: i64 = 0x8000_0000;

/// The key by which intersections are put in order: the rank of a number,
/// and one key past all ranks for every NaN. Two numbers compare as their
/// keys do, and a NaN, of which no comparison holds, stands behind them all.
pub open spec fn order_key(t: Scalar) -> int {
    if t.nan() {
        NAN_KEY as int
    } else {
        t.rank()
    }
}

/// Whether no entry of `s` has a smaller key than an entry before it.
pub open spec fn ordered(s: Seq<Intersection>) -> bool {
    forall|i: int, j: int| 0 <= i < j < s.len() ==> order_key(s[i].t) <= order_key(s[j].t)
}

/// Where `x` goes in `s`: behind the last entry whose key is not larger.
pub open spec fn slot(s: Seq<Intersection>, x: Intersection) -> int
    decreases s.len(),
{
    if s.len() > 0 && order_key(x.t) < order_key(s.last().t) {
        slot(s.drop_last(), x)
    } else {
        s.len() as int
    }
}

/// `s` in ascending order of `t`, entries with equal keys in the order in
/// which they stand in `s`.
pub open spec fn sorted(s: Seq<Intersection>) -> Seq<Intersection>
    decreases s.len(),
{
    if s.len() == 0 {
        s
    } else {
        let front = sorted(s.drop_last());
        front.insert(slot(front, s.last()), s.last())
    }
}

/// The slot of `x` lies inside `s`, at or behind every entry whose key is
/// not larger than that of `x`, and before every entry whose key is larger.
pub proof fn lemma_slot(s: Seq<Intersection>, x: Intersection)
    requires
        ordered(s),
    ensures
        0 <= slot(s, x) <= s.len(),
        forall|i: int| 0 <= i < slot(s, x) ==> order_key(s[i].t) <= order_key(x.t),
        forall|i: int| slot(s, x) <= i < s.len() ==> order_key(x.t) < order_key(s[i].t),
    decreases s.len(),
{
    if s.len() > 0 && order_key(x.t) < order_key(s.last().t) {
        let front = s.drop_last();
        lemma_slot(front, x);
        assert forall|i: int| slot(s, x) <= i < s.len() implies order_key(x.t) < order_key(
            s[i].t,
        ) by {
            if i < front.len() {
                assert(front[i] == s[i]);
            }
        }
        assert forall|i: int| 0 <= i < slot(s, x) implies order_key(s[i].t) <= order_key(x.t) by {
            assert(front[i] == s[i]);
        }
    }
}

/// A tail of larger keys does not move the slot.
pub proof fn lemma_slot_skips_larger(s: Seq<Intersection>, x: Intersection, pos: int)
    requires
        0 <= pos <= s.len(),
        forall|i: int| pos <= i < s.len() ==> order_key(x.t) < order_key(s[i].t),
        pos > 0 ==> order_key(s[pos - 1].t) <= order_key(x.t),
    ensures
        slot(s, x) == pos,
    decreases s.len() - pos,
{
    if pos < s.len() {
        let front = s.drop_last();
        assert forall|i: int| pos <= i < front.len() implies order_key(x.t) < order_key(
            front[i].t,
        ) by {
            assert(front[i] == s[i]);
        }
        if pos > 0 {
            assert(front[pos - 1] == s[pos - 1]);
        }
        lemma_slot_skips_larger(front, x, pos);
    }
}

/// Sorting keeps every entry, as often as it occurs, and leaves the entries
/// in order.
pub proof fn lemma_sorted(s: Seq<Intersection>)
    ensures
        sorted(s).len() == s.len(),
        sorted(s).to_multiset() == s.to_multiset(),
        ordered(sorted(s)),
    decreases s.len(),
{
    broadcast use vstd::seq_lib::to_multiset_build, vstd::seq_lib::to_multiset_insert;

    if s.len() > 0 {
        let front = sorted(s.drop_last());
        let x = s.last();
        lemma_sorted(s.drop_last());
        lemma_slot(front, x);
        let p = slot(front, x);
        let r = front.insert(p, x);
        assert(s.drop_last().push(x) == s);
        assert forall|i: int, j: int| 0 <= i < j < r.len() implies order_key(r[i].t) <= order_key(
            r[j].t,
        ) by {
            if j < p {
                assert(r[i] == front[i] && r[j] == front[j]);
            } else if j == p {
                assert(r[i] == front[i]);
            } else if i < p {
                assert(r[i] == front[i] && r[j] == front[j - 1]);
            } else if i == p {
                assert(r[j] == front[j - 1]);
            } else {
                assert(r[i] == front[i - 1] && r[j] == front[j - 1]);
            }
        }
    }
}

/// Sorting neither adds an entry nor loses one.
pub proof fn lemma_sorted_members(s: Seq<Intersection>)
    ensures
        forall|i: int| 0 <= i < sorted(s).len() ==> s.contains(#[trigger] sorted(s)[i]),
        forall|i: int| 0 <= i < s.len() ==> sorted(s).contains(#[trigger] s[i]),
{
    lemma_sorted(s);
    assert forall|i: int| 0 <= i < sorted(s).len() implies s.contains(#[trigger] sorted(s)[i]) by {
        let x = sorted(s)[i];
        assert(sorted(s).contains(x));
        vstd::seq_lib::to_multiset_contains(sorted(s), x);
        vstd::seq_lib::to_multiset_contains(s, x);
    }
    assert forall|i: int| 0 <= i < s.len() implies sorted(s).contains(#[trigger] s[i]) by {
        let x = s[i];
        assert(s.contains(x));
        vstd::seq_lib::to_multiset_contains(sorted(s), x);
        vstd::seq_lib::to_multiset_contains(s, x);
    }
}

/// In an ordered sequence no later entry lies below an earlier one, and of
/// two entries that are numbers the earlier is at most the later.
pub proof fn lemma_ordered_ascends(s: Seq<Intersection>, i: int, j: int)
    requires
        ordered(s),
        0 <= i <= j < s.len(),
    ensures
        !s[j].t.below(s[i].t),
        !s[i].t.nan() && !s[j].t.nan() ==> s[i].t.at_most(s[j].t),
{
}

/// The key of `t`, computed.
pub fn sort_key(t: Scalar) -> (k: i64)
    ensures
        k == order_key(t),
{
    if t.is_nan() {
        NAN_KEY
    } else if t.bits >= crate::scalar::SIGN_BIT {
        let m: u32 = t.bits - crate::scalar::SIGN_BIT;
        let wide: i64 = m as i64;
        -wide
    } else {
        let wide: i64 = t.bits as i64;
        wide
    }
}

/// Puts `x` into the ordered `v`, behind the entries whose key is not larger.
pub fn insert_ordered(v: &mut Vec<Intersection>, x: Intersection)
    requires
        ordered(old(v)@),
    ensures
        final(v)@ == old(v)@.insert(slot(old(v)@, x), x),
        ordered(final(v)@),
{
    let key: i64 = sort_key(x.t);
    let mut pos: usize = v.len();
    while pos > 0 && key < sort_key(v[pos - 1].t)
        invariant
            pos <= v.len(),
            key == order_key(x.t),
            forall|i: int| pos <= i < v.len() ==> order_key(x.t) < order_key(v@[i].t),
        decreases pos,
    {
        pos -= 1;
    }
    proof {
        lemma_slot_skips_larger(v@, x, pos as int);
        lemma_slot(v@, x);
        let r = v@.insert(pos as int, x);
        assert forall|i: int, j: int| 0 <= i < j < r.len() implies order_key(r[i].t) <= order_key(
            r[j].t,
        ) by {
            if j < pos {
                assert(r[i] == v@[i] && r[j] == v@[j]);
            } else if j == pos {
                assert(r[i] == v@[i]);
            } else if i < pos {
                assert(r[i] == v@[i] && r[j] == v@[j - 1]);
            } else if i == pos {
                assert(r[j] == v@[j - 1]);
            } else {
                assert(r[i] == v@[i - 1] && r[j] == v@[j - 1]);
            }
        }
    }
    v.insert(pos, x);
}

/// `xs` in ascending order of `t`, entries with equal keys in their old order.
pub fn sort(xs: Vec<Intersection>) -> (out: Vec<Intersection>)
    ensures
        out@ == sorted(xs@),
        ordered(out@),
        out@.to_multiset() == xs@.to_multiset(),
{
    let mut out: Vec<Intersection> = Vec::new();
    let mut i: usize = 0;
    while i < xs.len()
        invariant
            i <= xs.len(),
            out@ == sorted(xs@.subrange(0, i as int)),
            ordered(out@),
        decreases xs.len() - i,
    {
        proof {
            let next = xs@.subrange(0, i + 1);
            assert(next.drop_last() =~= xs@.subrange(0, i as int));
            assert(next.last() == xs@[i as int]);
        }
        insert_ordered(&mut out, xs[i]);
        i += 1;
    }
    proof {
        assert(xs@.subrange(0, xs.len() as int) =~= xs@);
        lemma_sorted(xs@);
    }
    out
}

} // verus!
