use crate::words::{contains_text, has_infix};
use vstd::prelude::*;

verus! {

/// Generates explanations for observations.
pub struct HypothesisGenerator;

impl HypothesisGenerator {
    /// The known facts that occur in the observation, in their order.
    pub fn generate(observation: &str, knowledge_base: &[String]) -> (r: Vec<String>)
        ensures
            r@.map_values(|s: String| s@) == knowledge_base@.map_values(|s: String| s@).filter(
                |f: Seq<char>| has_infix(observation@, f),
            ),
    {
        let ghost facts = knowledge_base@.map_values(|s: String| s@);
        let mut r: Vec<String> = Vec::new();
        let mut i: usize = 0;
        proof {
            reveal(Seq::filter);
            assert(facts.take(0) =~= Seq::<Seq<char>>::empty());
            assert(r@.map_values(|s: String| s@) =~= Seq::<Seq<char>>::empty());
        }
        while i < knowledge_base.len()
            invariant
                i <= knowledge_base@.len(),
                facts == knowledge_base@.map_values(|s: String| s@),
                r@.map_values(|s: String| s@) == facts.take(i as int).filter(|f: Seq<char>| has_infix(observation@, f)),
            decreases knowledge_base@.len() - i,
        {
            let ghost before = r@.map_values(|s: String| s@);
            proof {
                reveal(Seq::filter);
                assert(facts.take(i + 1).drop_last() =~= facts.take(i as int));
                assert(facts.take(i + 1).last() == knowledge_base@[i as int]@);
            }
            if contains_text(observation, knowledge_base[i].as_str()) {
                let f = knowledge_base[i].clone();
                let ghost fv = f@;
                r.push(f);
                proof {
                    assert(r@.map_values(|s: String| s@) =~= before.push(fv));
                }
            }
            i = i + 1;
        }
        proof {
            assert(facts.take(facts.len() as int) =~= facts);
        }
        r
    }
}

} // verus!
