use crate::kernel_core::event::EventPayload;
use crate::proposal::{custom_payload, is_custom_payload, join_texts, join_with};
use crate::text::{append_decimal, decimal};
use vstd::multiset::Multiset;
use vstd::prelude::*;

verus! {

/// A goal request: id, priority and requested resources.
pub type GoalRequest = (String, u64, u64);

/// Inserts `x` after every element whose priority is at least `x`'s.
pub open spec fn insert_by_priority(sorted: Seq<GoalRequest>, x: GoalRequest) -> Seq<GoalRequest>
    decreases sorted.len(),
{
    if sorted.len() == 0 {
        seq![x]
    } else if sorted[0].1 >= x.1 {
        seq![sorted[0]] + insert_by_priority(sorted.drop_first(), x)
    } else {
        seq![x] + sorted
    }
}

/// The requests ordered by descending priority, requests of equal priority
/// keeping their order.
pub open spec fn by_priority(goals: Seq<GoalRequest>) -> Seq<GoalRequest>
    decreases goals.len(),
{
    if goals.len() == 0 {
        Seq::empty()
    } else {
        insert_by_priority(by_priority(goals.drop_last()), goals.last())
    }
}

/// Grants in order: each request gets what it asked for, or what is left if that
/// is less; granting stops once nothing is left.
pub open spec fn grants(sorted: Seq<GoalRequest>, remaining: u64) -> Seq<(String, u64)>
    decreases sorted.len(),
{
    if sorted.len() == 0 {
        Seq::empty()
    } else {
        let grant = if remaining <= sorted[0].2 {
            remaining
        } else {
            sorted[0].2
        };
        let left = (remaining - grant) as u64;
        seq![(sorted[0].0, grant)] + if left == 0 {
            Seq::empty()
        } else {
            grants(sorted.drop_first(), left)
        }
    }
}

/// The sum of the granted amounts.
pub open spec fn granted_total(g: Seq<(String, u64)>) -> int
    decreases g.len(),
{
    if g.len() == 0 {
        0
    } else {
        g[0].1 + granted_total(g.drop_first())
    }
}

/// The text of an allocation: `id=amount` pairs joined by `,`.
pub open spec fn allocation_text(allocation: Seq<(String, u64)>) -> Seq<char> {
    join_with(allocation.map_values(|a: (String, u64)| a.0@ + "="@ + decimal(a.1 as nat)), ","@)
}

/// Inserting at the first position whose priority is below `x`'s is what
/// `insert_by_priority` does.
proof fn lemma_insert_by_priority(sorted: Seq<GoalRequest>, x: GoalRequest, p: int)
    requires
        0 <= p <= sorted.len(),
        forall|j: int| 0 <= j < p ==> sorted[j].1 >= x.1,
        p < sorted.len() ==> sorted[p].1 < x.1,
    ensures
        insert_by_priority(sorted, x) == sorted.insert(p, x),
    decreases sorted.len(),
{
    if sorted.len() == 0 {
        assert(sorted.insert(p, x) =~= seq![x]);
    } else if p == 0 {
        assert(seq![x] + sorted =~= sorted.insert(0, x));
    } else {
        let rest = sorted.drop_first();
        lemma_insert_by_priority(rest, x, p - 1);
        assert(seq![sorted[0]] + rest.insert(p - 1, x) =~= sorted.insert(p, x));
    }
}

/// Whether the requests come in descending priority.
pub open spec fn descending_by_priority(goals: Seq<GoalRequest>) -> bool {
    forall|i: int, j: int| 0 <= i <= j < goals.len() ==> (#[trigger] goals[i]).1 >= (#[trigger] goals[j]).1
}

/// Inserting a request into requests of descending priority keeps them
/// descending and adds exactly that request.
proof fn lemma_insert_by_priority_keeps_order(sorted: Seq<GoalRequest>, x: GoalRequest)
    requires
        descending_by_priority(sorted),
    ensures
        descending_by_priority(insert_by_priority(sorted, x)),
        insert_by_priority(sorted, x).to_multiset() == sorted.to_multiset().insert(x),
    decreases sorted.len(),
{
    broadcast use vstd::seq_lib::group_to_multiset_ensures, vstd::multiset::group_multiset_axioms;

    let r = insert_by_priority(sorted, x);
    if sorted.len() == 0 {
        assert(Seq::<GoalRequest>::empty().push(x) =~= seq![x]);
        assert(sorted.to_multiset() =~= Multiset::<GoalRequest>::empty());
    } else if sorted[0].1 >= x.1 {
        let rest = sorted.drop_first();
        let ins = insert_by_priority(rest, x);
        assert(descending_by_priority(rest)) by {
            assert forall|i: int, j: int| 0 <= i <= j < rest.len() implies (#[trigger] rest[i]).1 >= (
            #[trigger] rest[j]).1 by {
                assert(rest[i] == sorted[i + 1] && rest[j] == sorted[j + 1]);
            }
        }
        lemma_insert_by_priority_keeps_order(rest, x);
        assert(sorted =~= seq![sorted[0]] + rest);
        vstd::seq_lib::lemma_multiset_commutative(seq![sorted[0]], rest);
        vstd::seq_lib::lemma_multiset_commutative(seq![sorted[0]], ins);
        assert(r.to_multiset() =~= sorted.to_multiset().insert(x));
        assert forall|i: int, j: int| 0 <= i <= j < r.len() implies (#[trigger] r[i]).1 >= (#[trigger] r[j]).1 by {
            if i == 0 {
                if j > 0 {
                    assert(r[j] == ins[j - 1]);
                    assert(ins.to_multiset().count(ins[j - 1]) > 0);
                    if ins[j - 1] != x {
                        assert(rest.to_multiset().count(ins[j - 1]) > 0);
                        let k = rest.index_of(ins[j - 1]);
                        assert(rest[k] == sorted[k + 1]);
                    }
                }
            } else {
                assert(r[i] == ins[i - 1] && r[j] == ins[j - 1]);
            }
        }
    } else {
        vstd::seq_lib::lemma_multiset_commutative(seq![x], sorted);
        assert(r.to_multiset() =~= sorted.to_multiset().insert(x));
        assert forall|i: int, j: int| 0 <= i <= j < r.len() implies (#[trigger] r[i]).1 >= (#[trigger] r[j]).1 by {
            if i == 0 {
                if j > 0 {
                    assert(r[j] == sorted[j - 1]);
                    assert(sorted[0].1 >= sorted[j - 1].1);
                }
            } else {
                assert(r[i] == sorted[i - 1] && r[j] == sorted[j - 1]);
            }
        }
    }
}

/// Allocation serves the requests in descending priority and considers every
/// request, as often as it was made.
pub proof fn lemma_priority_order_keeps_requests(goals: Seq<GoalRequest>)
    ensures
        descending_by_priority(by_priority(goals)),
        by_priority(goals).to_multiset() == goals.to_multiset(),
    decreases goals.len(),
{
    broadcast use vstd::seq_lib::group_to_multiset_ensures, vstd::multiset::group_multiset_axioms;

    if goals.len() == 0 {
        assert(goals.to_multiset() =~= Multiset::<GoalRequest>::empty());
        assert(by_priority(goals).to_multiset() =~= Multiset::<GoalRequest>::empty());
    } else {
        lemma_priority_order_keeps_requests(goals.drop_last());
        lemma_insert_by_priority_keeps_order(by_priority(goals.drop_last()), goals.last());
        assert(goals.drop_last().push(goals.last()) =~= goals);
    }
}

/// The requests of priority `p`.
pub open spec fn of_priority(p: u64) -> spec_fn(GoalRequest) -> bool {
    |g: GoalRequest| g.1 == p
}

/// Inserting a request into requests of descending priority puts it after
/// every request of its own priority.
proof fn lemma_insert_by_priority_is_stable(sorted: Seq<GoalRequest>, x: GoalRequest, p: u64)
    requires
        descending_by_priority(sorted),
    ensures
        insert_by_priority(sorted, x).filter(of_priority(p)) == sorted.filter(of_priority(p)) + (if x.1 == p {
            seq![x]
        } else {
            Seq::<GoalRequest>::empty()
        }),
    decreases sorted.len(),
{
    reveal(Seq::filter);
    let f = of_priority(p);
    let tail = if x.1 == p {
        seq![x]
    } else {
        Seq::<GoalRequest>::empty()
    };
    if sorted.len() == 0 {
        Seq::<GoalRequest>::empty().lemma_filter_prepend(x, f);
        assert(seq![x] + Seq::<GoalRequest>::empty() =~= seq![x]);
        assert(Seq::<GoalRequest>::empty().filter(f) =~= Seq::<GoalRequest>::empty());
        assert(sorted =~= Seq::<GoalRequest>::empty());
        assert(insert_by_priority(sorted, x).filter(f) =~= sorted.filter(f) + tail);
    } else if sorted[0].1 >= x.1 {
        let rest = sorted.drop_first();
        assert(descending_by_priority(rest)) by {
            assert forall|i: int, j: int| 0 <= i <= j < rest.len() implies (#[trigger] rest[i]).1 >= (
            #[trigger] rest[j]).1 by {
                assert(rest[i] == sorted[i + 1] && rest[j] == sorted[j + 1]);
            }
        }
        lemma_insert_by_priority_is_stable(rest, x, p);
        rest.lemma_filter_prepend(sorted[0], f);
        insert_by_priority(rest, x).lemma_filter_prepend(sorted[0], f);
        assert(sorted =~= seq![sorted[0]] + rest);
        let head = if f(sorted[0]) {
            seq![sorted[0]]
        } else {
            Seq::<GoalRequest>::empty()
        };
        assert(insert_by_priority(sorted, x).filter(f) == head + (rest.filter(f) + tail));
        assert(sorted.filter(f) == head + rest.filter(f));
        assert(head + (rest.filter(f) + tail) =~= (head + rest.filter(f)) + tail);
    } else {
        sorted.lemma_filter_prepend(x, f);
        if x.1 == p {
            assert(sorted.all(|g: GoalRequest| !f(g))) by {
                assert forall|i: int| 0 <= i < sorted.len() implies !f(#[trigger] sorted[i]) by {
                    assert(sorted[0].1 >= sorted[i].1);
                }
            }
            sorted.lemma_all_neg_filter_empty(f);
            assert(sorted.filter(f) =~= Seq::<GoalRequest>::empty());
            assert(insert_by_priority(sorted, x).filter(f) =~= sorted.filter(f) + tail);
        } else {
            assert(insert_by_priority(sorted, x).filter(f) =~= sorted.filter(f) + tail);
        }
    }
}

/// Allocation serves requests of equal priority in the order they were given.
pub proof fn lemma_priority_order_is_stable(goals: Seq<GoalRequest>, p: u64)
    ensures
        by_priority(goals).filter(of_priority(p)) == goals.filter(of_priority(p)),
    decreases goals.len(),
{
    reveal(Seq::filter);
    if goals.len() > 0 {
        let init = goals.drop_last();
        lemma_priority_order_is_stable(init, p);
        lemma_priority_order_keeps_requests(init);
        lemma_insert_by_priority_is_stable(by_priority(init), goals.last(), p);
        let f = of_priority(p);
        if f(goals.last()) {
            assert(goals.filter(f) == init.filter(f).push(goals.last()));
            assert(init.filter(f) + seq![goals.last()] =~= init.filter(f).push(goals.last()));
        } else {
            assert(init.filter(f) + Seq::<GoalRequest>::empty() =~= init.filter(f));
        }
    }
}

/// No more is granted than was available, and no request gets more than it asked.
pub proof fn lemma_grants_bounded(sorted: Seq<GoalRequest>, remaining: u64)
    ensures
        granted_total(grants(sorted, remaining)) <= remaining,
        forall|i: int|
            0 <= i < grants(sorted, remaining).len() ==> #[trigger] grants(sorted, remaining)[i].1
                <= sorted[i].2,
        grants(sorted, remaining).len() <= sorted.len(),
    decreases sorted.len(),
{
    if sorted.len() > 0 {
        let grant = if remaining <= sorted[0].2 {
            remaining
        } else {
            sorted[0].2
        };
        let left = (remaining - grant) as u64;
        let g = grants(sorted, remaining);
        assert(g[0] == (sorted[0].0, grant));
        assert(granted_total(g) == g[0].1 + granted_total(g.drop_first()));
        if left != 0 {
            lemma_grants_bounded(sorted.drop_first(), left);
            let rest = grants(sorted.drop_first(), left);
            assert(g.drop_first() =~= rest);
            assert forall|i: int| 0 <= i < g.len() implies #[trigger] g[i].1 <= sorted[i].2 by {
                if i > 0 {
                    assert(g[i] == rest[i - 1]);
                }
            }
        } else {
            assert(g.drop_first() =~= Seq::<(String, u64)>::empty());
        }
    }
}

/// Allocates resources to goals by priority.
pub struct GoalAllocator;

impl GoalAllocator {
    /// Grants the available resources to the requests in descending order of
    /// priority (equal priorities in the order given): each gets what it asked
    /// for or what is left, until nothing is left.
    pub fn allocate(goals: &[GoalRequest], available_resources: u64) -> (r: Vec<(String, u64)>)
        ensures
            r@ == grants(by_priority(goals@), available_resources),
    {
        let mut sorted: Vec<GoalRequest> = Vec::new();
        let mut i: usize = 0;
        while i < goals.len()
            invariant
                i <= goals@.len(),
                sorted@ == by_priority(goals@.take(i as int)),
            decreases goals@.len() - i,
        {
            let x = (goals[i].0.clone(), goals[i].1, goals[i].2);
            let mut p: usize = 0;
            while p < sorted.len() && sorted[p].1 >= x.1
                invariant
                    p <= sorted@.len(),
                    forall|j: int| 0 <= j < p ==> sorted@[j].1 >= x.1,
                decreases sorted@.len() - p,
            {
                p = p + 1;
            }
            proof {
                lemma_insert_by_priority(sorted@, x, p as int);
                assert(goals@.take(i + 1).drop_last() =~= goals@.take(i as int));
                assert(goals@.take(i + 1).last() == goals@[i as int]);
            }
            sorted.insert(p, x);
            i = i + 1;
        }
        proof {
            assert(goals@.take(goals@.len() as int) =~= goals@);
        }
        let mut remaining = available_resources;
        let mut allocated: Vec<(String, u64)> = Vec::new();
        let mut k: usize = 0;
        proof {
            assert(sorted@.skip(0) =~= sorted@);
            assert(allocated@ + grants(sorted@, remaining) =~= grants(sorted@, remaining));
        }
        while k < sorted.len()
            invariant
                k <= sorted@.len(),
                sorted@ == by_priority(goals@),
                remaining > 0 || k == 0,
                grants(sorted@, available_resources) == allocated@ + grants(sorted@.skip(k as int), remaining),
            decreases sorted@.len() - k,
        {
            let requested = sorted[k].2;
            let grant = if remaining <= requested { remaining } else { requested };
            let ghost rest = sorted@.skip(k as int);
            let ghost before = allocated@;
            let ghost rem = remaining;
            let id = sorted[k].0.clone();
            proof {
                assert(rest[0] == sorted@[k as int]);
                assert(rest.drop_first() =~= sorted@.skip(k + 1));
                assert(grants(rest, rem) == seq![(rest[0].0, grant)] + (if (rem - grant) as u64 == 0 {
                    Seq::<(String, u64)>::empty()
                } else {
                    grants(rest.drop_first(), (rem - grant) as u64)
                }));
            }
            allocated.push((id, grant));
            remaining = remaining - grant;
            proof {
                assert(allocated@ =~= before + seq![(rest[0].0, grant)]);
            }
            if remaining == 0 {
                proof {
                    assert(grants(sorted@, available_resources) =~= allocated@);
                }
                return allocated;
            }
            proof {
                assert(grants(sorted@, available_resources) =~= allocated@ + grants(sorted@.skip(k + 1), remaining));
            }
            k = k + 1;
        }
        proof {
            assert(sorted@.skip(k as int) =~= Seq::<GoalRequest>::empty());
            assert(grants(sorted@, available_resources) =~= allocated@);
        }
        allocated
    }

    /// Proposes an allocation: `id=amount` pairs joined by `,`.
    pub fn propose_allocation(allocation: Vec<(String, u64)>) -> (r: EventPayload)
        ensures
            is_custom_payload(r, "GoalResourcesAllocated"@, allocation_text(allocation@)),
    {
        let mut parts: Vec<String> = Vec::new();
        let mut i: usize = 0;
        while i < allocation.len()
            invariant
                i <= allocation@.len(),
                parts@.map_values(|s: String| s@) == allocation@.take(i as int).map_values(
                    |a: (String, u64)| a.0@ + "="@ + decimal(a.1 as nat),
                ),
            decreases allocation@.len() - i,
        {
            let mut t = allocation[i].0.clone();
            t.append("=");
            append_decimal(&mut t, allocation[i].1);
            let ghost before = parts@;
            let ghost tv = t@;
            parts.push(t);
            proof {
                assert(allocation@.take(i + 1) =~= allocation@.take(i as int).push(allocation@[i as int]));
                assert(parts@.map_values(|s: String| s@) =~= before.map_values(|s: String| s@).push(tv));
                assert(allocation@.take(i + 1).map_values(|a: (String, u64)| a.0@ + "="@ + decimal(a.1 as nat))
                    =~= allocation@.take(i as int).map_values(|a: (String, u64)| a.0@ + "="@ + decimal(a.1 as nat)).push(
                    tv,
                ));
            }
            i = i + 1;
        }
        proof {
            assert(allocation@.take(allocation@.len() as int) =~= allocation@);
        }
        let joined = join_texts(&parts, ",");
        custom_payload("GoalResourcesAllocated", &joined)
    }
}

} // verus!
