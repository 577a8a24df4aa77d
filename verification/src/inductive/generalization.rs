use vstd::prelude::*;

verus! {

/// How many of the first `n` facts equal `f`.
pub open spec fn count_of(facts: Seq<Seq<char>>, f: Seq<char>, n: nat) -> nat
    decreases n,
{
    if n == 0 {
        0
    } else {
        count_of(facts, f, (n - 1) as nat) + if facts[n - 1] == f {
            1nat
        } else {
            0nat
        }
    }
}

/// How often `f` occurs among the facts.
pub open spec fn frequency(facts: Seq<Seq<char>>, f: Seq<char>) -> nat {
    count_of(facts, f, facts.len())
}

/// Whether the fact at `k` is a most frequent one, and the first of those.
pub open spec fn is_first_most_frequent(facts: Seq<Seq<char>>, k: int) -> bool {
    &&& 0 <= k < facts.len()
    &&& forall|i: int| 0 <= i < facts.len() ==> frequency(facts, facts[i]) <= frequency(facts, facts[k])
    &&& forall|i: int| 0 <= i < k ==> frequency(facts, facts[i]) < frequency(facts, facts[k])
}

/// Counts how often `f` occurs among `facts`.
fn count_fact(facts: &[String], f: &String) -> (r: usize)
    ensures
        r == frequency(facts@.map_values(|s: String| s@), f@),
{
    let ghost texts = facts@.map_values(|s: String| s@);
    let mut c: usize = 0;
    let mut i: usize = 0;
    while i < facts.len()
        invariant
            i <= facts@.len(),
            texts == facts@.map_values(|s: String| s@),
            c == count_of(texts, f@, i as nat),
            c <= i,
        decreases facts@.len() - i,
    {
        proof {
            assert(texts[i as int] == facts@[i as int]@);
        }
        if facts[i] == *f {
            c = c + 1;
        }
        i = i + 1;
    }
    c
}

/// Generalizes from specific facts to a rule.
pub struct Generalization;

impl Generalization {
    /// A most frequent fact (the first such in the given order), if there is any fact.
    pub fn generalize(facts: &[String]) -> (r: Option<String>)
        ensures
            match r {
                Some(f) => exists|k: int|
                    is_first_most_frequent(facts@.map_values(|s: String| s@), k) && f@ == facts@[k]@,
                None => facts@.len() == 0,
            },
    {
        let ghost texts = facts@.map_values(|s: String| s@);
        if facts.len() == 0 {
            return None;
        }
        let mut best: usize = 0;
        let mut best_count = count_fact(facts, &facts[0]);
        let mut i: usize = 1;
        proof {
            assert(texts[0] == facts@[0]@);
        }
        while i < facts.len()
            invariant
                1 <= i <= facts@.len(),
                texts == facts@.map_values(|s: String| s@),
                best < i,
                best_count == frequency(texts, texts[best as int]),
                forall|j: int| 0 <= j < i ==> frequency(texts, texts[j]) <= best_count,
                forall|j: int| 0 <= j < best ==> frequency(texts, texts[j]) < best_count,
            decreases facts@.len() - i,
        {
            let c = count_fact(facts, &facts[i]);
            proof {
                assert(texts[i as int] == facts@[i as int]@);
            }
            if c > best_count {
                best = i;
                best_count = c;
            }
            i = i + 1;
        }
        proof {
            assert(is_first_most_frequent(texts, best as int));
            assert(texts[best as int] == facts@[best as int]@);
        }
        Some(facts[best].clone())
    }
}

} // verus!
