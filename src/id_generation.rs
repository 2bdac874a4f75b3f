use vstd::prelude::*;

verus! {

/// A counter that hands out task ids: 1, 2, 3, ... and never reuses one.
///
/// The counter is an owned value rather than process-wide state, so each
/// store of tasks carries its own sequence of ids.
pub struct IdGenerator {
    counter: u64,
}

impl View for IdGenerator {
    type V = nat;

    /// The id that the next call of `next` returns.
    closed spec fn view(&self) -> nat {
        self.counter as nat
    }
}

impl IdGenerator {
    /// Whether the generator can still hand out an id that fits in a `u32`.
    pub open spec fn can_issue(&self) -> bool {
        1 <= self@ <= u32::MAX
    }

    /// A fresh generator, whose first id is 1.
    pub fn new() -> (r: IdGenerator)
        ensures
            r@ == 1,
            r.can_issue(),
    {
        IdGenerator { counter: 1 }
    }

    /// A generator whose first id is `first`; ids below `first` are never
    /// handed out by it.
    pub fn starting_at(first: u64) -> (r: IdGenerator)
        requires
            1 <= first <= u32::MAX as u64 + 1,
        ensures
            r@ == first as nat,
    {
        IdGenerator { counter: first }
    }

    /// Whether another id can be handed out.
    pub fn has_next(&self) -> (r: bool)
        ensures
            r == self.can_issue(),
    {
        proof {
            assert(self@ == self.counter as nat);
        }
        1 <= self.counter && self.counter <= u32::MAX as u64
    }

    /// Returns the current id and advances the counter by one.
    pub fn next(&mut self) -> (r: u32)
        requires
            old(self).can_issue(),
        ensures
            r as nat == old(self)@,
            final(self)@ == old(self)@ + 1,
    {
        let r = self.counter as u32;
        self.counter = self.counter + 1;
        r
    }
}

/// Calling `next` repeatedly on a fresh generator yields 1, 2, 3, ...:
/// values that are distinct and strictly increasing, starting at 1.
pub proof fn lemma_ids_increase(states: Seq<IdGenerator>, issued: Seq<u32>)
    requires
        states.len() == issued.len() + 1,
        states[0]@ == 1,
        forall|i: int|
            0 <= i < issued.len() ==> #[trigger] issued[i] as nat == states[i]@ && states[i
                + 1]@ == states[i]@ + 1,
    ensures
        forall|i: int| 0 <= i < issued.len() ==> issued[i] as nat == i + 1,
        forall|i: int, j: int| 0 <= i < j < issued.len() ==> issued[i] < issued[j],
{
    assert forall|i: int| 0 <= i < states.len() implies states[i]@ == i + 1 by {
        lemma_state_at(states, issued, i);
    }
    assert forall|i: int| 0 <= i < issued.len() implies issued[i] as nat == i + 1 by {
        assert(issued[i] as nat == states[i]@);
    }
}

proof fn lemma_state_at(states: Seq<IdGenerator>, issued: Seq<u32>, i: int)
    requires
        states.len() == issued.len() + 1,
        states[0]@ == 1,
        forall|k: int|
            0 <= k < issued.len() ==> #[trigger] issued[k] as nat == states[k]@ && states[k
                + 1]@ == states[k]@ + 1,
        0 <= i < states.len(),
    ensures
        states[i]@ == i + 1,
    decreases i,
{
    if i > 0 {
        lemma_state_at(states, issued, i - 1);
        assert(issued[i - 1] as nat == states[i - 1]@);
    }
}

} // verus!
