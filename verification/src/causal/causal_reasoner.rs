use vstd::prelude::*;

verus! {

/// The effect of the first rule whose cause is `cause`.
pub open spec fn lookup_effect(rules: Seq<(String, String)>, cause: Seq<char>) -> Option<Seq<char>>
    decreases rules.len(),
{
    if rules.len() == 0 {
        None
    } else if rules[0].0@ == cause {
        Some(rules[0].1@)
    } else {
        lookup_effect(rules.drop_first(), cause)
    }
}

/// The cause of the first rule whose effect is `effect`.
pub open spec fn lookup_cause(rules: Seq<(String, String)>, effect: Seq<char>) -> Option<Seq<char>>
    decreases rules.len(),
{
    if rules.len() == 0 {
        None
    } else if rules[0].1@ == effect {
        Some(rules[0].0@)
    } else {
        lookup_cause(rules.drop_first(), effect)
    }
}

/// Finds the effect of the first rule whose cause is `cause`.
pub fn find_effect(rules: &[(String, String)], cause: &str) -> (r: Option<String>)
    ensures
        match r {
            Some(e) => lookup_effect(rules@, cause@) == Some(e@),
            None => lookup_effect(rules@, cause@) is None,
        },
{
    let key = String::from_str(cause);
    let mut i: usize = 0;
    proof {
        assert(rules@.skip(0) =~= rules@);
    }
    while i < rules.len()
        invariant
            i <= rules@.len(),
            key@ == cause@,
            lookup_effect(rules@, cause@) == lookup_effect(rules@.skip(i as int), cause@),
        decreases rules@.len() - i,
    {
        proof {
            assert(rules@.skip(i as int).drop_first() =~= rules@.skip(i + 1));
            assert(rules@.skip(i as int)[0] == rules@[i as int]);
        }
        if rules[i].0 == key {
            return Some(rules[i].1.clone());
        }
        i = i + 1;
    }
    None
}

/// Infers causes from known cause-effect pairs.
pub struct CausalReasoner;

impl CausalReasoner {
    /// The cause of the first known pair whose effect is `effect`.
    pub fn infer_cause(effect: &str, known_causes: &[(String, String)]) -> (r: Option<String>)
        ensures
            match r {
                Some(c) => lookup_cause(known_causes@, effect@) == Some(c@),
                None => lookup_cause(known_causes@, effect@) is None,
            },
    {
        let key = String::from_str(effect);
        let mut i: usize = 0;
        proof {
            assert(known_causes@.skip(0) =~= known_causes@);
        }
        while i < known_causes.len()
            invariant
                i <= known_causes@.len(),
                key@ == effect@,
                lookup_cause(known_causes@, effect@) == lookup_cause(known_causes@.skip(i as int), effect@),
            decreases known_causes@.len() - i,
        {
            proof {
                assert(known_causes@.skip(i as int).drop_first() =~= known_causes@.skip(i + 1));
                assert(known_causes@.skip(i as int)[0] == known_causes@[i as int]);
            }
            if known_causes[i].1 == key {
                return Some(known_causes[i].0.clone());
            }
            i = i + 1;
        }
        None
    }
}

} // verus!
