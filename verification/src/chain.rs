use vstd::prelude::*;

verus! {

/// The end of one known chain.
#[derive(Clone, Copy, Debug, PartialEq, Eq, Structural)]
pub struct ChainTip {
    pub id: u64,
    /// The height of the tip.
    pub number: u64,
}

/// A deterministic best-chain rule over the known chain tips.
#[derive(Clone, Copy, Debug, PartialEq, Eq, Structural)]
pub enum ChainSelector {
    /// The highest tip wins; among equally high tips, the one known first.
    LongestChain,
}

/// Whether the tip at `best` is the one the longest-chain rule picks: no tip
/// is higher, and every tip before it is lower.
pub open spec fn is_best(tips: Seq<ChainTip>, best: int) -> bool {
    &&& 0 <= best < tips.len()
    &&& forall|j: int| 0 <= j < tips.len() ==> (#[trigger] tips[j]).number <= tips[best].number
    &&& forall|j: int| 0 <= j < best ==> (#[trigger] tips[j]).number < tips[best].number
}

/// The rule picks at most one tip.
pub proof fn best_tip_is_unique(tips: Seq<ChainTip>, a: int, b: int)
    requires
        is_best(tips, a),
        is_best(tips, b),
    ensures
        a == b,
{
    if a < b {
        assert(tips[a].number < tips[b].number);
        assert(tips[b].number <= tips[a].number);
    } else if b < a {
        assert(tips[b].number < tips[a].number);
        assert(tips[a].number <= tips[b].number);
    }
}

/// The tip that the longest-chain rule picks among the known ones.
pub open spec fn best_of(tips: Seq<ChainTip>) -> Option<ChainTip> {
    if tips.len() == 0 {
        None
    } else {
        Some(tips[choose|i: int| is_best(tips, i)])
    }
}

impl ChainSelector {
    pub fn longest_chain() -> (selector: ChainSelector)
        ensures
            selector == ChainSelector::LongestChain,
    {
        ChainSelector::LongestChain
    }

    /// The best tip among the known ones; `None` exactly when none is known.
    pub fn best_tip(&self, tips: &Vec<ChainTip>) -> (best: Option<ChainTip>)
        ensures
            best is None <==> tips@.len() == 0,
            best matches Some(tip) ==> exists|i: int| is_best(tips@, i) && tips@[i] == tip,
            best == best_of(tips@),
    {
        if tips.len() == 0 {
            return None;
        }
        let mut best: usize = 0;
        let mut i: usize = 1;
        while i < tips.len()
            invariant
                0 <= best < i <= tips.len(),
                forall|j: int| 0 <= j < i ==> (#[trigger] tips@[j]).number <= tips@[best as int].number,
                forall|j: int|
                    0 <= j < best ==> (#[trigger] tips@[j]).number < tips@[best as int].number,
            decreases tips.len() - i,
        {
            if tips[i].number > tips[best].number {
                best = i;
            }
            i = i + 1;
        }
        proof {
            assert(is_best(tips@, best as int));
            let chosen = choose|i: int| is_best(tips@, i);
            best_tip_is_unique(tips@, chosen, best as int);
        }
        Some(tips[best])
    }
}

} // verus!
