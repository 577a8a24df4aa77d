use crate::abductive::explanation_ranker::{byte_len, text_byte_len};
use crate::kernel_core::event::EventPayload;
use crate::proposal::{custom_payload, is_custom_payload};
use vstd::prelude::*;

verus! {

/// The position of the first shortest text among the first `n` (`n >= 1`).
pub open spec fn shortest_index(texts: Seq<Seq<char>>, n: nat) -> int
    decreases n,
{
    if n <= 1 {
        0
    } else {
        let b = shortest_index(texts, (n - 1) as nat);
        if byte_len(texts[n - 1]) < byte_len(texts[b]) {
            n - 1
        } else {
            b
        }
    }
}

/// The shortest text is no longer than any other, and comes first among equals.
pub proof fn lemma_shortest_index(texts: Seq<Seq<char>>, n: nat)
    requires
        1 <= n <= texts.len(),
    ensures
        0 <= shortest_index(texts, n) < n,
        forall|i: int| 0 <= i < n ==> byte_len(texts[shortest_index(texts, n)]) <= byte_len(#[trigger] texts[i]),
        forall|i: int| 0 <= i < shortest_index(texts, n) ==> byte_len(texts[shortest_index(texts, n)]) < byte_len(#[trigger] texts[i]),
    decreases n,
{
    if n > 1 {
        lemma_shortest_index(texts, (n - 1) as nat);
    }
}

/// Keeps the simplest explanation.
pub struct OccamFilter;

impl OccamFilter {
    /// The first of the shortest explanations (in bytes), if there is any.
    pub fn filter(explanations: &[String]) -> (r: Option<String>)
        ensures
            match r {
                Some(e) => explanations@.len() > 0 && e@ == explanations@[shortest_index(
                    explanations@.map_values(|s: String| s@),
                    explanations@.len(),
                )]@,
                None => explanations@.len() == 0,
            },
    {
        let ghost texts = explanations@.map_values(|s: String| s@);
        if explanations.len() == 0 {
            return None;
        }
        let mut best: usize = 0;
        let mut best_len = text_byte_len(explanations[0].as_str());
        proof {
            assert(texts[0] == explanations@[0]@);
        }
        let mut i: usize = 1;
        while i < explanations.len()
            invariant
                1 <= i <= explanations@.len(),
                texts == explanations@.map_values(|s: String| s@),
                best == shortest_index(texts, i as nat),
                best < i,
                best_len == byte_len(texts[best as int]),
            decreases explanations@.len() - i,
        {
            let l = text_byte_len(explanations[i].as_str());
            proof {
                assert(texts[i as int] == explanations@[i as int]@);
            }
            if l < best_len {
                best = i;
                best_len = l;
            }
            i = i + 1;
        }
        Some(explanations[best].clone())
    }

    /// Proposes recording the simplest explanation.
    pub fn propose_filter(best: String) -> (r: EventPayload)
        ensures
            is_custom_payload(r, "OccamFilterApplied"@, best@),
    {
        custom_payload("OccamFilterApplied", &best)
    }
}

} // verus!
