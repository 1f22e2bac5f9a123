//! Sequence functions shared by the contracts of the widget models.

use vstd::prelude::*;

verus! {

/// `s` with every occurrence of `x` left out, order kept.
pub open spec fn without(s: Seq<usize>, x: usize) -> Seq<usize>
    decreases s.len(),
{
    if s.len() == 0 {
        Seq::empty()
    } else if s.last() == x {
        without(s.drop_last(), x)
    } else {
        without(s.drop_last(), x).push(s.last())
    }
}

/// The entries of an recency list that name another existing tab:
/// entries equal to `active` or not below `len` are left out, order kept.
pub open spec fn others(s: Seq<usize>, active: usize, len: nat) -> Seq<usize>
    decreases s.len(),
{
    if s.len() == 0 {
        Seq::empty()
    } else if s.last() != active && s.last() < len {
        others(s.drop_last(), active, len).push(s.last())
    } else {
        others(s.drop_last(), active, len)
    }
}

/// An index list after the element at `idx` was removed from the indexed
/// list: entries equal to `idx` go, entries above it move down by one.
pub open spec fn reindex_after_remove(s: Seq<usize>, idx: usize) -> Seq<usize>
    decreases s.len(),
{
    if s.len() == 0 {
        Seq::empty()
    } else if s.last() == idx {
        reindex_after_remove(s.drop_last(), idx)
    } else if s.last() > idx {
        reindex_after_remove(s.drop_last(), idx).push((s.last() - 1) as usize)
    } else {
        reindex_after_remove(s.drop_last(), idx).push(s.last())
    }
}

/// Every entry of `s` lies below `bound`.
pub open spec fn all_below(s: Seq<usize>, bound: nat) -> bool {
    forall|i: int| 0 <= i < s.len() ==> #[trigger] s[i] < bound
}

pub proof fn lemma_without_below(s: Seq<usize>, x: usize, bound: nat)
    requires
        all_below(s, bound),
    ensures
        all_below(without(s, x), bound),
        forall|i: int| 0 <= i < without(s, x).len() ==> #[trigger] without(s, x)[i] != x,
        without(s, x).len() <= s.len(),
    decreases s.len(),
{
    if s.len() > 0 {
        lemma_without_below(s.drop_last(), x, bound);
    }
}

pub proof fn lemma_others_below(s: Seq<usize>, active: usize, len: nat)
    ensures
        all_below(others(s, active, len), len),
        forall|i: int| 0 <= i < others(s, active, len).len() ==> #[trigger] others(s, active, len)[i] != active,
        others(s, active, len).len() <= s.len(),
    decreases s.len(),
{
    if s.len() > 0 {
        lemma_others_below(s.drop_last(), active, len);
    }
}

pub proof fn lemma_reindex_below(s: Seq<usize>, idx: usize, bound: nat)
    requires
        all_below(s, bound),
        idx < bound,
    ensures
        all_below(reindex_after_remove(s, idx), (bound - 1) as nat),
    decreases s.len(),
{
    if s.len() > 0 {
        lemma_reindex_below(s.drop_last(), idx, bound);
    }
}

/// `s.take(i + 1)` without its last entry is `s.take(i)`.
pub proof fn lemma_take_step<A>(s: Seq<A>, i: int)
    requires
        0 <= i < s.len(),
    ensures
        s.take(i + 1).drop_last() == s.take(i),
        s.take(i + 1).last() == s[i],
{
    assert(s.take(i + 1).drop_last() =~= s.take(i));
}

/// `v` with every occurrence of `x` left out.
pub fn without_vec(v: &Vec<usize>, x: usize) -> (r: Vec<usize>)
    ensures
        r@ == without(v@, x),
{
    let mut r: Vec<usize> = Vec::new();
    let mut i: usize = 0;
    while i < v.len()
        invariant
            i <= v.len(),
            r@ == without(v@.take(i as int), x),
        decreases v.len() - i,
    {
        proof {
            lemma_take_step(v@, i as int);
        }
        if v[i] != x {
            r.push(v[i]);
        }
        i += 1;
    }
    assert(v@.take(v.len() as int) =~= v@);
    r
}

/// The entries of `v` that name another existing tab (see [`others`]).
pub fn others_vec(v: &Vec<usize>, active: usize, len: usize) -> (r: Vec<usize>)
    ensures
        r@ == others(v@, active, len as nat),
{
    let mut r: Vec<usize> = Vec::new();
    let mut i: usize = 0;
    while i < v.len()
        invariant
            i <= v.len(),
            r@ == others(v@.take(i as int), active, len as nat),
        decreases v.len() - i,
    {
        proof {
            lemma_take_step(v@, i as int);
        }
        if v[i] != active && v[i] < len {
            r.push(v[i]);
        }
        i += 1;
    }
    assert(v@.take(v.len() as int) =~= v@);
    r
}

/// `v` after the indexed element at `idx` was removed (see [`reindex_after_remove`]).
pub fn reindex_vec(v: &Vec<usize>, idx: usize) -> (r: Vec<usize>)
    ensures
        r@ == reindex_after_remove(v@, idx),
{
    let mut r: Vec<usize> = Vec::new();
    let mut i: usize = 0;
    while i < v.len()
        invariant
            i <= v.len(),
            r@ == reindex_after_remove(v@.take(i as int), idx),
        decreases v.len() - i,
    {
        proof {
            lemma_take_step(v@, i as int);
        }
        let e = v[i];
        if e == idx {
        } else if e > idx {
            r.push(e - 1);
        } else {
            r.push(e);
        }
        i += 1;
    }
    assert(v@.take(v.len() as int) =~= v@);
    r
}

/// [`others`] of a sequence with one entry in front.
pub proof fn lemma_others_prepend(x: usize, r: Seq<usize>, active: usize, len: nat)
    ensures
        others(seq![x] + r, active, len) == (if x != active && x < len {
            seq![x] + others(r, active, len)
        } else {
            others(r, active, len)
        }),
    decreases r.len(),
{
    let q = seq![x] + r;
    if r.len() == 0 {
        assert(q.drop_last() =~= Seq::<usize>::empty());
        assert(q.last() == x);
        assert(others(q.drop_last(), active, len) == Seq::<usize>::empty());
        assert(seq![x] + others(r, active, len) =~= seq![x]);
        assert(Seq::<usize>::empty().push(x) =~= seq![x]);
    } else {
        assert(q.drop_last() =~= seq![x] + r.drop_last());
        assert(q.last() == r.last());
        lemma_others_prepend(x, r.drop_last(), active, len);
        if x != active && x < len {
            assert((seq![x] + others(r.drop_last(), active, len)).push(r.last())
                =~= seq![x] + others(r.drop_last(), active, len).push(r.last()));
        }
    }
}

/// [`without`] of a sequence with one entry in front.
pub proof fn lemma_without_prepend(x: usize, r: Seq<usize>, y: usize)
    ensures
        without(seq![x] + r, y) == (if x != y { seq![x] + without(r, y) } else { without(r, y) }),
    decreases r.len(),
{
    let q = seq![x] + r;
    if r.len() == 0 {
        assert(q.drop_last() =~= Seq::<usize>::empty());
        assert(q.last() == x);
        assert(without(q.drop_last(), y) == Seq::<usize>::empty());
        assert(seq![x] + without(r, y) =~= seq![x]);
        assert(Seq::<usize>::empty().push(x) =~= seq![x]);
    } else {
        assert(q.drop_last() =~= seq![x] + r.drop_last());
        assert(q.last() == r.last());
        lemma_without_prepend(x, r.drop_last(), y);
        if x != y {
            assert((seq![x] + without(r.drop_last(), y)).push(r.last())
                =~= seq![x] + without(r.drop_last(), y).push(r.last()));
        }
    }
}

/// Leaving `x` out twice is leaving it out once.
pub proof fn lemma_without_twice(s: Seq<usize>, x: usize)
    ensures
        without(without(s, x), x) == without(s, x),
    decreases s.len(),
{
    if s.len() > 0 {
        lemma_without_twice(s.drop_last(), x);
        if s.last() != x {
            assert(without(s, x).drop_last() =~= without(s.drop_last(), x));
        }
    }
}


/// An index list after an element was inserted at `pos` into the indexed
/// list: entries at or above `pos` move up by one.
pub open spec fn shift_up(s: Seq<usize>, pos: usize) -> Seq<usize> {
    s.map_values(|v: usize| if v >= pos { (v + 1) as usize } else { v })
}

/// `s` lists each of `0..n` exactly once.
pub open spec fn is_index_perm(s: Seq<usize>, n: nat) -> bool {
    &&& s.len() == n
    &&& all_below(s, n)
    &&& s.no_duplicates()
}

/// `v` with every entry at or above `pos` raised by one.
pub fn shift_up_vec(v: &Vec<usize>, pos: usize, bound: usize) -> (r: Vec<usize>)
    requires
        all_below(v@, bound as nat),
    ensures
        r@ == shift_up(v@, pos),
{
    let mut r: Vec<usize> = Vec::new();
    let mut i: usize = 0;
    while i < v.len()
        invariant
            i <= v.len(),
            all_below(v@, bound as nat),
            r@ == shift_up(v@.take(i as int), pos),
        decreases v.len() - i,
    {
        let e = v[i];
        assert(e < bound);
        if e >= pos {
            r.push(e + 1);
        } else {
            r.push(e);
        }
        assert(v@.take(i as int + 1) =~= v@.take(i as int).push(e));
        i += 1;
        assert(r@ =~= shift_up(v@.take(i as int), pos));
    }
    assert(v@.take(v.len() as int) =~= v@);
    r
}

/// Inserting index `pos` into a complete index list, after moving the
/// entries at or above it up, gives a complete index list one longer.
pub proof fn lemma_shift_up_perm(s: Seq<usize>, n: nat, pos: usize)
    requires
        is_index_perm(s, n),
        pos <= n,
        n < usize::MAX,
    ensures
        is_index_perm(shift_up(s, pos).push(pos), n + 1),
{
    let t = shift_up(s, pos).push(pos);
    assert forall|i: int, j: int| 0 <= i < t.len() && 0 <= j < t.len() && i != j
        implies t[i] != t[j] by {
        if i < s.len() && j < s.len() {
            assert(s[i] != s[j]);
        }
    }
    assert forall|i: int| 0 <= i < t.len() implies #[trigger] t[i] < n + 1 by {
        if i < s.len() {
            assert(s[i] < n);
        }
    }
}

} // verus!
