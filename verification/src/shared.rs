//! Shared ownership of resource names.
//!
//! Every handle holds its resource name behind an `Arc`; the manager holds a
//! clone of the same `Arc`, so that a resource is known to be unused exactly
//! when the manager's clone is the only one left.

use std::sync::Arc;
use crate::positions::{
    ascending_positions, cleaned, flagged, lemma_cleaned_shrinks, lemma_flagged, lemma_remove_positions, released_at,
    remove_flagged, remove_positions, swap_out,
};
use vstd::prelude::*;

verus! {

/// The resource names held by a list of shared pointers, in order.
pub open spec fn names<X>(v: Seq<Arc<X>>) -> Seq<X> {
    v.map_values(|a: Arc<X>| *a)
}

/// Clones the pointer: std's `Arc::clone` makes another pointer to the same
/// allocation, so the clone points at the same value.
#[verifier::external_body]
pub(crate) fn arc_clone<X>(a: &Arc<X>) -> (r: Arc<X>)
    ensures
        *r == **a,
{
    a.clone()
}

/// Whether this pointer is the only one to its allocation, through std's
/// `Arc::get_mut`, which gives a mutable reference exactly when no other
/// `Arc` or `Weak` points to the same allocation. The answer depends on the
/// clones that live elsewhere in the program, so nothing is stated of it;
/// the pointer itself is left as it was.
#[verifier::external_body]
pub(crate) fn arc_is_unique<X>(a: &mut Arc<X>) -> (r: bool)
    ensures
        *final(a) == *old(a),
{
    Arc::get_mut(a).is_some()
}

/// The address of the allocation that the pointer points to, through std's
/// `Arc::as_ptr`. Addresses are chosen by the allocator at run time, so
/// nothing is stated of the result.
#[verifier::external_body]
pub(crate) fn arc_address<X>(a: &Arc<X>) -> usize {
    Arc::as_ptr(a) as usize
}

/// Appends a new reference to the resource that `a` points to.
pub fn record<X>(v: &mut Vec<Arc<X>>, a: &Arc<X>)
    ensures
        names(final(v)@) == names(old(v)@).push(**a),
{
    let c = arc_clone(a);
    v.push(c);
    assert(names(v@) =~= names(old(v)@).push(**a));
}

/// Appends a new reference to each resource of `src`, in order.
pub fn append_clones<X>(dst: &mut Vec<Arc<X>>, src: &Vec<Arc<X>>)
    ensures
        names(final(dst)@) == names(old(dst)@) + names(src@),
{
    let mut i: usize = 0;
    while i < src.len()
        invariant
            i <= src.len(),
            names(dst@) == names(old(dst)@) + names(src@).take(i as int),
        decreases src.len() - i,
    {
        record(dst, &src[i]);
        assert(names(src@).take(i + 1) =~= names(src@).take(i as int).push(*src@[i as int]));
        assert(names(dst@) =~= names(old(dst)@) + names(src@).take(i + 1));
        i = i + 1;
    }
    assert(names(src@).take(i as int) =~= names(src@));
}

/// Taking names commutes with removing ascending positions.
proof fn lemma_names_remove_positions<X>(s: Seq<Arc<X>>, idx: Seq<usize>)
    requires
        ascending_positions(idx, s.len()),
    ensures
        names(remove_positions(s, idx)) == remove_positions(names(s), idx),
    decreases idx.len(),
{
    if idx.len() > 0 {
        let last = idx.last() as int;
        let rest = idx.drop_last();
        let t = swap_out(s, last);
        assert(names(t) =~= swap_out(names(s), last));
        assert forall|j: int| 0 <= j < rest.len() implies #[trigger] rest[j] < t.len() by {
            assert(idx[j] < idx[idx.len() - 1]);
        }
        lemma_names_remove_positions(t, rest);
    }
}

/// `trace` runs from `first` to `last` in `steps` steps.
pub open spec fn trail<P>(trace: Seq<P>, first: P, last: P, steps: nat) -> bool {
    &&& trace.len() == steps + 1
    &&& trace[0] == first
    &&& trace[steps as int] == last
}

/// Hands `x` to `fun` when the check found it unused; otherwise does
/// nothing at all.
pub fn release_if_unused<X, P, F: Fn(&mut P, &X)>(param: &mut P, x: &X, unused: bool, fun: &F)
    requires
        forall|args: (&mut P, &X)| #[trigger] fun.requires(args),
    ensures
        !unused ==> *final(param) == *old(param),
        unused ==> exists|r: &mut P|
            #![trigger fun.ensures((r, x), ())]
            *r == *old(param) && *final(r) == *final(param) && fun.ensures((r, x), ()),
{
    if unused {
        fun(param, x);
    }
}

/// Hands each resource of `vector` that nothing but `vector` refers to any
/// longer to `fun`, then drops those references from `vector`. Which
/// resources are unused depends on the handles alive elsewhere: the check
/// gives one answer per reference, in order, and `vector` loses exactly the
/// positions answered unused. `fun` is called once per position answered
/// unused, in list order, with that position's resource, and `param` passes
/// from one call to the next; when none is, `param` is left as it was.
pub(crate) fn clean_vec<X, P, F: Fn(&mut P, &X)>(param: &mut P, vector: &mut Vec<Arc<X>>, fun: F) -> (answers: (Ghost<Seq<bool>>, Ghost<Seq<P>>))
    requires
        forall|args: (&mut P, &X)| #[trigger] fun.requires(args),
    ensures
        released_at(names(old(vector)@), names(final(vector)@), answers.0@),
        trail(answers.1@, *old(param), *final(param), flagged(answers.0@).len()),
        forall|j: int|
            #![trigger flagged(answers.0@)[j]]
            0 <= j < flagged(answers.0@).len() ==> flagged(answers.0@)[j] < names(old(vector)@).len() && exists|r: &mut P|
                #![trigger fun.ensures((r, &names(old(vector)@)[flagged(answers.0@)[j] as int]), ())]
                *r == answers.1@[j] && *final(r) == answers.1@[j + 1] && fun.ensures(
                    (r, &names(old(vector)@)[flagged(answers.0@)[j] as int]),
                    (),
                ),
        cleaned(names(old(vector)@), names(final(vector)@)),
        names(final(vector)@).len() <= names(old(vector)@).len(),
        names(final(vector)@).len() == names(old(vector)@).len() ==> *final(param) == *old(param),
        names(final(vector)@).len() == names(old(vector)@).len() ==> names(final(vector)@) == names(old(vector)@),
{
    let n: usize = vector.len();
    let mut unused: Vec<bool> = Vec::new();
    let mut i: usize = 0;
    let ghost mut trace: Seq<P> = seq![*param];
    let ghost olds = names(vector@);
    while i < vector.len()
        invariant
            forall|args: (&mut P, &X)| #[trigger] fun.requires(args),
            i <= vector.len(),
            vector@ == old(vector)@,
            olds == names(old(vector)@),
            unused@.len() == i,
            flagged(unused@).len() == 0 ==> *param == *old(param),
            trail(trace, *old(param), *param, flagged(unused@).len()),
            forall|j: int|
                #![trigger flagged(unused@)[j]]
                0 <= j < flagged(unused@).len() ==> flagged(unused@)[j] < olds.len() && exists|r: &mut P|
                    #![trigger fun.ensures((r, &olds[flagged(unused@)[j] as int]), ())]
                    *r == trace[j] && *final(r) == trace[j + 1] && fun.ensures(
                        (r, &olds[flagged(unused@)[j] as int]),
                        (),
                    ),
        decreases vector.len() - i,
    {
        let u = arc_is_unique(&mut vector[i]);
        let ghost before_call = *param;
        let ghost prev_flags = unused@;
        release_if_unused(param, &*vector[i], u, &fun);
        proof {
            assert(unused@.push(u).drop_last() =~= unused@);
        }
        unused.push(u);
        proof {
            let n_prev = flagged(prev_flags).len();
            if u {
                let new_trace = trace.push(*param);
                assert(flagged(unused@) == flagged(prev_flags).push(i));
                assert(olds[i as int] == *vector@[i as int]);
                assert forall|j: int|
                    #![trigger flagged(unused@)[j]]
                    0 <= j < flagged(unused@).len() implies flagged(unused@)[j] < olds.len() && exists|r: &mut P|
                        #![trigger fun.ensures((r, &olds[flagged(unused@)[j] as int]), ())]
                        *r == new_trace[j] && *final(r) == new_trace[j + 1] && fun.ensures(
                            (r, &olds[flagged(unused@)[j] as int]),
                            (),
                        ) by {
                    if j < n_prev {
                        assert(flagged(unused@)[j] == flagged(prev_flags)[j]);
                        assert(new_trace[j] == trace[j]);
                        assert(new_trace[j + 1] == trace[j + 1]);
                    } else {
                        assert(j == n_prev);
                        assert(flagged(unused@)[j] == i);
                        assert(new_trace[j] == before_call);
                        assert(new_trace[j + 1] == *param);
                    }
                }
                trace = new_trace;
            } else {
                assert(flagged(unused@) == flagged(prev_flags));
                assert forall|j: int|
                    #![trigger flagged(unused@)[j]]
                    0 <= j < flagged(unused@).len() implies flagged(unused@)[j] < olds.len() && exists|r: &mut P|
                        #![trigger fun.ensures((r, &olds[flagged(unused@)[j] as int]), ())]
                        *r == trace[j] && *final(r) == trace[j + 1] && fun.ensures(
                            (r, &olds[flagged(unused@)[j] as int]),
                            (),
                        ) by {
                    assert(flagged(unused@)[j] == flagged(prev_flags)[j]);
                }
            }
        }
        i = i + 1;
    }
    let ghost before = vector@;
    proof {
        lemma_flagged(unused@);
    }
    remove_flagged(vector, &unused);
    proof {
        lemma_names_remove_positions(before, flagged(unused@));
        lemma_remove_positions(names(before), flagged(unused@));
        assert(released_at(names(before), names(vector@), unused@));
        assert(names(before).len() == n);
        lemma_cleaned_shrinks(names(before), names(vector@));
        assert(trail(trace, *old(param), *param, flagged(unused@).len()));
    }
    (Ghost(unused@), Ghost(trace))
}

} // verus!
