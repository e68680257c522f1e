//! Ranking by score: order-preserving integer keys for `f32` scores, and a
//! stable sort from the highest score to the lowest.
use vstd::prelude::*;

verus! {

/// The bits of `-0.0`.
pub const NEGATIVE_ZERO_BITS: u32 = 0x8000_0000;

/// The order key of an `f32` score given by its bits: for every two scores
/// that are numbers (not NaN), the keys compare as the scores do, and equal
/// scores get equal keys; so `-0.0` and `+0.0` share one key. Negative
/// scores have their bits inverted, the others get the sign bit set. A NaN
/// score, which has no place in the order of numbers, gets a key above every
/// number when its sign bit is clear and below every number when it is set.
pub open spec fn spec_score_key(bits: u32) -> u32 {
    if bits == NEGATIVE_ZERO_BITS {
        0x8000_0000
    } else if bits & 0x8000_0000 != 0 {
        !bits
    } else {
        bits | 0x8000_0000
    }
}

/// The bits of the score that has this order key (`+0.0` for the key both
/// zeros share).
pub open spec fn spec_score_bits(key: u32) -> u32 {
    if key & 0x8000_0000 != 0 {
        key & 0x7FFF_FFFF
    } else {
        !key
    }
}

/// The order key of a score.
pub fn score_key(bits: u32) -> (k: u32)
    ensures
        k == spec_score_key(bits),
{
    if bits == NEGATIVE_ZERO_BITS {
        0x8000_0000
    } else if bits & 0x8000_0000 != 0 {
        !bits
    } else {
        bits | 0x8000_0000
    }
}

/// The bits of the score with this order key.
pub fn score_bits(key: u32) -> (b: u32)
    ensures
        b == spec_score_bits(key),
{
    if key & 0x8000_0000 != 0 {
        key & 0x7FFF_FFFF
    } else {
        !key
    }
}

/// Both zeros share one key, and apart from that keys and bits correspond
/// one to one: every score but `-0.0` is read back from its key, and every
/// key but the one `-0.0` would have had apart from `+0.0` is read back from
/// its bits.
pub proof fn score_key_round_trip(bits: u32, key: u32)
    requires
        bits != NEGATIVE_ZERO_BITS,
        key != 0x7FFF_FFFF,
    ensures
        spec_score_key(NEGATIVE_ZERO_BITS) == spec_score_key(0),
        spec_score_bits(spec_score_key(bits)) == bits,
        spec_score_key(spec_score_bits(key)) == key,
{
    assert(bits != 0x8000_0000u32 ==> (if bits & 0x8000_0000 != 0 { !bits } else { bits
        | 0x8000_0000 }) & 0x8000_0000 != 0 ==> (if bits & 0x8000_0000 != 0 { !bits } else { bits
        | 0x8000_0000 }) & 0x7FFF_FFFF == bits) by (bit_vector);
    assert(bits != 0x8000_0000u32 ==> (if bits & 0x8000_0000 != 0 { !bits } else { bits
        | 0x8000_0000 }) & 0x8000_0000 == 0 ==> !(if bits & 0x8000_0000 != 0 { !bits } else {
        bits | 0x8000_0000 }) == bits) by (bit_vector);
    assert(key != 0x7FFF_FFFFu32 ==> (if key & 0x8000_0000 != 0 { key & 0x7FFF_FFFF } else {
        !key }) != 0x8000_0000u32) by (bit_vector);
    assert(key & 0x8000_0000 != 0 ==> (key & 0x7FFF_FFFF) & 0x8000_0000 == 0 && ((key
        & 0x7FFF_FFFF) | 0x8000_0000) == key) by (bit_vector);
    assert(key & 0x8000_0000 == 0 ==> (!key) & 0x8000_0000 != 0 && !(!key) == key)
        by (bit_vector);
    assert(0u32 & 0x8000_0000u32 == 0 && (0u32 | 0x8000_0000u32) == 0x8000_0000u32)
        by (bit_vector);
}

/// A value ranked by an order key.
pub trait Ranked {
    /// The order key of the value.
    spec fn rank(&self) -> u32;

    /// The order key of the value.
    fn rank_key(&self) -> (k: u32)
        ensures
            k == self.rank(),
    ;
}

/// The position of the first highest-ranked element.
pub open spec fn first_max_index<T: Ranked>(s: Seq<T>) -> int
    decreases s.len(),
{
    if s.len() <= 1 {
        0
    } else {
        let j = first_max_index(s.drop_last());
        if s.last().rank() > s[j].rank() {
            s.len() - 1
        } else {
            j
        }
    }
}

/// The elements from the highest rank to the lowest, equal ranks keeping
/// their order.
pub open spec fn rank_desc<T: Ranked>(s: Seq<T>) -> Seq<T>
    decreases s.len(),
{
    if s.len() == 0 {
        Seq::empty()
    } else {
        let i = first_max_index(s);
        proof {
            lemma_first_max_index_bounds(s);
        }
        seq![s[i]] + rank_desc(s.remove(i))
    }
}

/// The first maximum lies within the sequence and no element ranks higher.
pub proof fn lemma_first_max_index_bounds<T: Ranked>(s: Seq<T>)
    requires
        s.len() > 0,
    ensures
        0 <= first_max_index(s) < s.len(),
        forall|k: int| 0 <= k < s.len() ==> (#[trigger] s[k]).rank() <= s[first_max_index(s)].rank(),
        forall|k: int|
            0 <= k < first_max_index(s) ==> (#[trigger] s[k]).rank() < s[first_max_index(s)].rank(),
    decreases s.len(),
{
    if s.len() > 1 {
        let d = s.drop_last();
        lemma_first_max_index_bounds(d);
        let j = first_max_index(d);
        assert(forall|k: int| 0 <= k < d.len() ==> d[k] == s[k]);
        let m = first_max_index(s);
        assert forall|k: int| 0 <= k < s.len() implies (#[trigger] s[k]).rank() <= s[m].rank() by {
            if k < d.len() {
                assert(d[k].rank() <= d[j].rank());
            }
        }
        assert forall|k: int| 0 <= k < m implies (#[trigger] s[k]).rank() < s[m].rank() by {
            if m == j {
                assert(d[k].rank() < d[j].rank());
            } else {
                assert(d[k].rank() <= d[j].rank());
            }
        }
    }
}

/// Sorts from the highest rank to the lowest, keeping the order of equal
/// ranks.
pub fn sort_by_rank_desc<T: Ranked>(v: Vec<T>) -> (r: Vec<T>)
    ensures
        r@ == rank_desc(v@),
{
    let mut rest = v;
    let mut out: Vec<T> = Vec::new();
    let ghost whole = rest@;
    while rest.len() > 0
        invariant
            out@ + rank_desc(rest@) == rank_desc(whole),
        decreases rest.len(),
    {
        let mut best: usize = 0;
        let mut best_key = rest[0].rank_key();
        let mut j: usize = 1;
        while j < rest.len()
            invariant
                1 <= j <= rest.len(),
                best < j,
                best_key == rest@[best as int].rank(),
                best as int == first_max_index(rest@.take(j as int)),
            decreases rest.len() - j,
        {
            assert(rest@.take(j as int + 1).drop_last() =~= rest@.take(j as int));
            let k = rest[j].rank_key();
            if k > best_key {
                best = j;
                best_key = k;
            }
            j += 1;
        }
        assert(rest@.take(rest.len() as int) =~= rest@);
        proof {
            lemma_first_max_index_bounds(rest@);
        }
        let ghost before = rest@;
        let item = rest.remove(best);
        assert(rank_desc(before) == seq![before[best as int]] + rank_desc(before.remove(best as int)));
        out.push(item);
        assert(out@ + rank_desc(rest@) =~= rank_desc(whole));
    }
    assert(out@ =~= rank_desc(whole));
    out
}

/// Sorting by rank keeps exactly the elements it was given and puts them
/// from the highest rank to the lowest.
pub proof fn rank_desc_is_sorted_permutation<T: Ranked>(s: Seq<T>)
    ensures
        rank_desc(s).len() == s.len(),
        rank_desc(s).to_multiset() == s.to_multiset(),
        forall|i: int, j: int|
            0 <= i < j < rank_desc(s).len() ==> (#[trigger] rank_desc(s)[i]).rank() >= (
            #[trigger] rank_desc(s)[j]).rank(),
    decreases s.len(),
{
    broadcast use vstd::seq_lib::group_to_multiset_ensures;
    if s.len() > 0 {
        let i = first_max_index(s);
        lemma_first_max_index_bounds(s);
        let rest = s.remove(i);
        rank_desc_is_sorted_permutation(rest);
        let out = rank_desc(s);
        assert(out == seq![s[i]] + rank_desc(rest));
        assert forall|a: int, b: int| 0 <= a < b < out.len() implies (#[trigger] out[a]).rank() >= (
        #[trigger] out[b]).rank() by {
            if a == 0 {
                let r = rank_desc(rest);
                assert(r.to_multiset().count(out[b]) > 0) by {
                    assert(r[b - 1] == out[b]);
                }
                assert(rest.to_multiset().count(out[b]) > 0);
                assert(rest.contains(out[b]));
                let w = choose|w: int| 0 <= w < rest.len() && rest[w] == out[b];
                if w < i {
                    assert(rest[w] == s[w]);
                } else {
                    assert(rest[w] == s[w + 1]);
                }
            } else {
                assert(out[a] == rank_desc(rest)[a - 1]);
                assert(out[b] == rank_desc(rest)[b - 1]);
            }
        }
        assert(s.to_multiset() =~= rest.to_multiset().insert(s[i])) by {
            vstd::seq_lib::lemma_seq_union_to_multiset_commutative(seq![s[i]], rest);
            assert(s =~= s.subrange(0, i) + seq![s[i]] + s.subrange(i + 1, s.len() as int));
            assert(rest =~= s.subrange(0, i) + s.subrange(i + 1, s.len() as int));
            vstd::seq_lib::lemma_multiset_commutative(s.subrange(0, i) + seq![s[i]], s.subrange(i + 1, s.len() as int));
            vstd::seq_lib::lemma_multiset_commutative(s.subrange(0, i), seq![s[i]]);
            vstd::seq_lib::lemma_multiset_commutative(s.subrange(0, i), s.subrange(i + 1, s.len() as int));
        }
        vstd::seq_lib::lemma_multiset_commutative(seq![s[i]], rank_desc(rest));
    }
}

/// The elements of rank `k`, in the order they come.
pub open spec fn with_rank<T: Ranked>(s: Seq<T>, k: u32) -> Seq<T>
    decreases s.len(),
{
    if s.len() == 0 {
        Seq::empty()
    } else {
        with_rank(s.drop_last(), k) + if s.last().rank() == k {
            seq![s.last()]
        } else {
            Seq::empty()
        }
    }
}

proof fn lemma_with_rank_concat<T: Ranked>(a: Seq<T>, b: Seq<T>, k: u32)
    ensures
        with_rank(a + b, k) == with_rank(a, k) + with_rank(b, k),
    decreases b.len(),
{
    if b.len() == 0 {
        assert(a + b =~= a);
        assert(with_rank(a, k) + with_rank(b, k) =~= with_rank(a, k));
    } else {
        lemma_with_rank_concat(a, b.drop_last(), k);
        assert((a + b).drop_last() =~= a + b.drop_last());
        assert((a + b).last() == b.last());
        let tail: Seq<T> = if b.last().rank() == k {
            seq![b.last()]
        } else {
            Seq::empty()
        };
        assert(with_rank(a, k) + with_rank(b.drop_last(), k) + tail =~= with_rank(a, k) + (
        with_rank(b.drop_last(), k) + tail));
    }
}

proof fn lemma_with_rank_none<T: Ranked>(s: Seq<T>, k: u32)
    requires
        forall|j: int| 0 <= j < s.len() ==> (#[trigger] s[j]).rank() != k,
    ensures
        with_rank(s, k) == Seq::<T>::empty(),
    decreases s.len(),
{
    if s.len() > 0 {
        assert forall|j: int| 0 <= j < s.drop_last().len() implies (#[trigger] s.drop_last()[j]).rank()
            != k by {
            assert(s.drop_last()[j] == s[j]);
        }
        lemma_with_rank_none(s.drop_last(), k);
        assert(s.last() == s[s.len() - 1]);
    }
}

/// Sorting by rank is stable: the elements of any one rank come out in the
/// order they went in, so equal scores keep first-seen order.
pub proof fn rank_desc_is_stable<T: Ranked>(s: Seq<T>, k: u32)
    ensures
        with_rank(rank_desc(s), k) == with_rank(s, k),
    decreases s.len(),
{
    if s.len() > 0 {
        let i = first_max_index(s);
        lemma_first_max_index_bounds(s);
        let rest = s.remove(i);
        rank_desc_is_stable(rest, k);
        let head = s.take(i);
        let one = seq![s[i]];
        let tail = s.skip(i + 1);
        assert(s =~= head + one + tail);
        assert(rest =~= head + tail);
        lemma_with_rank_concat(head + one, tail, k);
        lemma_with_rank_concat(head, one, k);
        lemma_with_rank_concat(head, tail, k);
        lemma_with_rank_concat(one, rank_desc(rest), k);
        assert(rank_desc(s) == one + rank_desc(rest));
        assert(one.drop_last() =~= Seq::<T>::empty());
        assert(with_rank(one.drop_last(), k) == Seq::<T>::empty());
        if s[i].rank() == k {
            assert forall|j: int| 0 <= j < head.len() implies (#[trigger] head[j]).rank() != k by {
                assert(head[j] == s[j]);
            }
            lemma_with_rank_none(head, k);
            assert(with_rank(head, k) + with_rank(one, k) =~= with_rank(one, k));
            assert(with_rank(head, k) + with_rank(tail, k) =~= with_rank(tail, k));
        } else {
            assert(with_rank(one, k) =~= Seq::<T>::empty());
            assert(with_rank(head, k) + with_rank(one, k) =~= with_rank(head, k));
            assert(with_rank(one, k) + with_rank(rank_desc(rest), k) =~= with_rank(rank_desc(rest), k));
        }
    }
}

} // verus!
