//! Removing a set of positions from a list by swapping each one with the
//! last element, from the highest position down.
//!
//! Removing the highest position first leaves every lower position where it
//! was, so each position still names the element it named in the original
//! list when its turn comes.

use vstd::prelude::*;

verus! {

broadcast use vstd::seq_lib::group_to_multiset_ensures;

/// `idx` lists positions of a list of length `len`, strictly increasing.
pub open spec fn ascending_positions(idx: Seq<usize>, len: nat) -> bool {
    &&& forall|j: int| 0 <= j < idx.len() ==> #[trigger] idx[j] < len
    &&& forall|j: int, k: int| 0 <= j < k < idx.len() ==> idx[j] < idx[k]
}

/// Removes position `i`: the last element takes its place.
pub open spec fn swap_out<A>(s: Seq<A>, i: int) -> Seq<A> {
    s.update(i, s.last()).drop_last()
}

/// Removes the positions of `idx` from `s`, the last (highest) one first.
pub open spec fn remove_positions<A>(s: Seq<A>, idx: Seq<usize>) -> Seq<A>
    decreases idx.len(),
{
    if idx.len() == 0 {
        s
    } else {
        remove_positions(swap_out(s, idx.last() as int), idx.drop_last())
    }
}

/// The elements at the positions of `idx`, in the order of `idx`.
pub open spec fn picked<A>(s: Seq<A>, idx: Seq<usize>) -> Seq<A> {
    idx.map_values(|k: usize| s[k as int])
}

/// The positions at which `flags` holds, in ascending order.
pub open spec fn flagged(flags: Seq<bool>) -> Seq<usize>
    decreases flags.len(),
{
    if flags.len() == 0 {
        Seq::empty()
    } else if flags.last() {
        flagged(flags.drop_last()).push((flags.len() - 1) as usize)
    } else {
        flagged(flags.drop_last())
    }
}

/// `after` is `before` with the positions at which `flags` holds removed;
/// `flags` has one entry per element of `before`.
pub open spec fn released_at<A>(before: Seq<A>, after: Seq<A>, flags: Seq<bool>) -> bool {
    &&& flags.len() == before.len()
    &&& after == remove_positions(before, flagged(flags))
}

/// `after` is `before` with the flagged positions removed, for some flags.
pub open spec fn cleaned<A>(before: Seq<A>, after: Seq<A>) -> bool {
    exists|flags: Seq<bool>| #[trigger] released_at(before, after, flags)
}

/// The flagged positions are ascending positions of the flags, and there
/// are none where no flag holds.
pub proof fn lemma_flagged(flags: Seq<bool>)
    requires
        flags.len() <= usize::MAX + 1,
    ensures
        ascending_positions(flagged(flags), flags.len()),
        flagged(flags).len() <= flags.len(),
        (forall|j: int| 0 <= j < flags.len() ==> !#[trigger] flags[j]) ==> flagged(flags).len() == 0,
        forall|j: int| 0 <= j < flagged(flags).len() ==> #[trigger] flags[flagged(flags)[j] as int],
    decreases flags.len(),
{
    if flags.len() > 0 {
        let rest = flags.drop_last();
        lemma_flagged(rest);
        assert forall|j: int| 0 <= j < rest.len() implies rest[j] == #[trigger] flags[j] by {}
    }
}

proof fn lemma_swap_out_multiset<A>(s: Seq<A>, i: int)
    requires
        0 <= i < s.len(),
    ensures
        swap_out(s, i).len() == s.len() - 1,
        swap_out(s, i).to_multiset() == s.to_multiset().remove(s[i]),
        forall|j: int| 0 <= j < i ==> #[trigger] swap_out(s, i)[j] == s[j],
{
    broadcast use vstd::multiset::group_multiset_axioms;
    broadcast use vstd::seq_lib::to_multiset_update;

    let u = s.update(i, s.last());
    assert(u == u.drop_last().push(u.last()));
    assert(u.last() == s.last());
    assert(u.to_multiset() == s.to_multiset().insert(s.last()).remove(s[i]));
    assert(u.to_multiset() == u.drop_last().to_multiset().insert(s.last()));
    assert(s.contains(s[i]));
    assert(s.to_multiset().count(s[i]) > 0);
    let d = u.drop_last().to_multiset();
    assert forall|x: A| #[trigger] d.count(x) == s.to_multiset().remove(s[i]).count(x) by {
        assert(d.insert(s.last()).count(x) == s.to_multiset().insert(s.last()).remove(s[i]).count(x));
    }
    assert(swap_out(s, i).to_multiset() =~= s.to_multiset().remove(s[i]));
}

/// Ascending positions leave room for one removal per later position.
proof fn lemma_room_below<A>(idx: Seq<usize>, len: nat, j: int)
    requires
        ascending_positions(idx, len),
        0 <= j < idx.len(),
    ensures
        idx[j] + (idx.len() - 1 - j) < len,
    decreases idx.len() - j,
{
    if j + 1 < idx.len() {
        lemma_room_below::<A>(idx, len, j + 1);
        assert(idx[j] < idx[j + 1]);
    }
}

/// Removing ascending positions keeps the list's other elements: what is
/// left, together with the elements picked, is the original list as a
/// multiset, and the list is shorter by the number of positions.
pub proof fn lemma_remove_positions<A>(s: Seq<A>, idx: Seq<usize>)
    requires
        ascending_positions(idx, s.len()),
    ensures
        remove_positions(s, idx).len() == s.len() - idx.len(),
        remove_positions(s, idx).to_multiset().add(picked(s, idx).to_multiset())
            == s.to_multiset(),
    decreases idx.len(),
{
    broadcast use vstd::multiset::group_multiset_axioms;

    if idx.len() == 0 {
        assert(picked(s, idx) =~= Seq::<A>::empty());
        assert(remove_positions(s, idx).to_multiset().add(picked(s, idx).to_multiset())
            =~= s.to_multiset());
    } else {
        let last = idx.last() as int;
        let rest = idx.drop_last();
        let t = swap_out(s, last);
        lemma_swap_out_multiset(s, last);
        assert forall|j: int| 0 <= j < rest.len() implies #[trigger] rest[j] < t.len() by {
            assert(idx[j] < idx[idx.len() - 1]);
        }
        assert(ascending_positions(rest, t.len()));
        lemma_remove_positions(t, rest);
        assert forall|j: int| 0 <= j < rest.len() implies #[trigger] picked(t, rest)[j]
            == picked(s, rest)[j] by {
            assert(idx[j] < idx[idx.len() - 1]);
        }
        assert(picked(t, rest) =~= picked(s, rest));
        assert(picked(s, idx) =~= picked(s, rest).push(s[last]));
        assert(s.contains(s[last]));
        assert(s.to_multiset().count(s[last]) > 0);
        let m = remove_positions(t, rest).to_multiset();
        let p = picked(s, rest).to_multiset();
        assert(m.add(p) == s.to_multiset().remove(s[last]));
        assert(picked(s, idx).to_multiset() == p.insert(s[last]));
        assert forall|x: A| #[trigger] m.add(p.insert(s[last])).count(x) == s.to_multiset().count(x) by {
            assert(m.add(p).count(x) == s.to_multiset().remove(s[last]).count(x));
        }
        assert(remove_positions(s, idx).to_multiset().add(picked(s, idx).to_multiset())
            =~= s.to_multiset());
    }
}

/// Cleaning never lengthens a list, and leaves no element more often than
/// it was; a list that keeps its length keeps every element in place.
pub proof fn lemma_cleaned_shrinks<A>(before: Seq<A>, after: Seq<A>)
    requires
        cleaned(before, after),
        before.len() <= usize::MAX + 1,
    ensures
        after.len() <= before.len(),
        after.to_multiset().subset_of(before.to_multiset()),
        after.len() == before.len() ==> after == before,
{
    broadcast use vstd::multiset::group_multiset_axioms;

    let flags = choose|flags: Seq<bool>| #[trigger] released_at(before, after, flags);
    lemma_flagged(flags);
    lemma_remove_positions(before, flagged(flags));
    if after.len() == before.len() {
        assert(flagged(flags) =~= Seq::<usize>::empty());
    }
}

/// Removes the ascending positions `idx` from `v`, the highest first, each by
/// moving the last element into its place.
pub fn remove_positions_from<X>(v: &mut Vec<X>, idx: &Vec<usize>)
    requires
        ascending_positions(idx@, old(v)@.len()),
    ensures
        final(v)@ == remove_positions(old(v)@, idx@),
{
    let mut k: usize = idx.len();
    assert(idx@.take(k as int) =~= idx@);
    while k > 0
        invariant
            k <= idx.len(),
            ascending_positions(idx@, old(v)@.len()),
            v@.len() == old(v)@.len() - (idx.len() - k),
            remove_positions(v@, idx@.take(k as int)) == remove_positions(old(v)@, idx@),
        decreases k,
    {
        proof {
            lemma_room_below::<X>(idx@, old(v)@.len(), k - 1);
        }
        let pos = idx[k - 1];
        let ghost before = v@;
        v.swap_remove(pos);
        proof {
            let pre = idx@.take(k as int);
            assert(pre.last() == pos);
            assert(pre.drop_last() =~= idx@.take(k - 1));
            assert(v@ == swap_out(before, pos as int));
        }
        k = k - 1;
    }
    assert(idx@.take(0) =~= Seq::<usize>::empty());
}

/// Removes from `v` the positions at which `flags` holds, the highest first,
/// each by moving the last element into its place.
pub fn remove_flagged<X>(v: &mut Vec<X>, flags: &Vec<bool>)
    requires
        flags@.len() == old(v)@.len(),
    ensures
        released_at(old(v)@, final(v)@, flags@),
{
    let mut idx: Vec<usize> = Vec::new();
    let mut i: usize = 0;
    while i < flags.len()
        invariant
            i <= flags.len(),
            idx@ == flagged(flags@.take(i as int)),
        decreases flags.len() - i,
    {
        proof {
            let t = flags@.take(i + 1);
            assert(t.drop_last() =~= flags@.take(i as int));
            assert(t.last() == flags@[i as int]);
        }
        if flags[i] {
            idx.push(i);
        }
        i = i + 1;
    }
    assert(flags@.take(i as int) =~= flags@);
    proof {
        lemma_flagged(flags@);
    }
    remove_positions_from(v, &idx);
}
} // verus!
