//! The per-element results of a lenient decode ("slots"), and the dense
//! sequence of survivors that they flatten to.
use vstd::prelude::*;

verus! {

/// The values held by the `Some` slots of `s`, in the order of `s`.
pub open spec fn survivors<T>(s: Seq<Option<T>>) -> Seq<T>
    decreases s.len(),
{
    if s.len() == 0 {
        Seq::empty()
    } else {
        let rest = survivors(s.drop_last());
        match s.last() {
            Some(x) => rest.push(x),
            None => rest,
        }
    }
}

/// The positions of the `Some` slots of `s`, in increasing order.
pub open spec fn survivor_positions<T>(s: Seq<Option<T>>) -> Seq<int>
    decreases s.len(),
{
    if s.len() == 0 {
        Seq::empty()
    } else {
        let rest = survivor_positions(s.drop_last());
        match s.last() {
            Some(_) => rest.push(s.len() - 1),
            None => rest,
        }
    }
}

/// The slot for one element: the converted value where the conversion
/// succeeded, and `None` where it failed, whatever the failure was.
pub fn slot_of<T, E>(outcome: Result<T, E>) -> (r: Option<T>)
    ensures
        r is Some <==> outcome is Ok,
        outcome is Ok ==> r == Some(outcome->Ok_0),
{
    match outcome {
        Ok(v) => Some(v),
        Err(_) => None,
    }
}

/// Keeps the values of the `Some` slots, in their order.
pub fn dense_of<T>(slots: Vec<Option<T>>) -> (r: Vec<T>)
    ensures
        r@ == survivors(slots@),
{
    let ghost all = slots@;
    let mut out: Vec<T> = Vec::new();
    for slot in it: slots
        invariant
            it.seq() == all,
            out@ == survivors(all.take(it.index() as int)),
    {
        proof {
            let i = it.index() as int;
            assert(all.take(i + 1).drop_last() == all.take(i));
        }
        match slot {
            Some(v) => out.push(v),
            None => {},
        }
    }
    proof {
        assert(all.take(all.len() as int) == all);
    }
    out
}

/// Flattening never lengthens: there are at most as many survivors as
/// slots.
pub proof fn lemma_survivors_no_longer<T>(s: Seq<Option<T>>)
    ensures
        survivors(s).len() <= s.len(),
    decreases s.len(),
{
    if s.len() > 0 {
        lemma_survivors_no_longer(s.drop_last());
    }
}

/// Flattening keeps order: the survivors stand at strictly increasing
/// positions of the slots, and the `k`-th survivor is the value of the slot
/// at the `k`-th of those positions.
pub proof fn lemma_survivors_keep_order<T>(s: Seq<Option<T>>)
    ensures
        survivor_positions(s).len() == survivors(s).len(),
        forall|k: int|
            0 <= k < survivors(s).len() ==> {
                let p = #[trigger] survivor_positions(s)[k];
                &&& 0 <= p < s.len()
                &&& s[p] == Some(survivors(s)[k])
            },
        forall|j: int, k: int|
            0 <= j < k < survivor_positions(s).len() ==> survivor_positions(s)[j]
                < survivor_positions(s)[k],
    decreases s.len(),
{
    if s.len() > 0 {
        let init = s.drop_last();
        lemma_survivors_keep_order(init);
        assert forall|k: int| 0 <= k < survivors(init).len() implies init[survivor_positions(init)[k]] == s[survivor_positions(init)[k]] by {
            let p = survivor_positions(init)[k];
            assert(0 <= p < init.len());
        }
    }
}

} // verus!
