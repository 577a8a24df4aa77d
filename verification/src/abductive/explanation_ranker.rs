use crate::kernel_core::event::EventPayload;
use crate::proposal::{custom_payload, is_custom_payload, join_texts, join_with};
use vstd::prelude::*;
use vstd::multiset::Multiset;
use vstd::utf8::encode_utf8;

verus! {

/// The length of a text in bytes, as `str::len` counts it.
pub open spec fn byte_len(s: Seq<char>) -> nat {
    encode_utf8(s).len()
}

/// The length of `s` in bytes.
pub fn text_byte_len(s: &str) -> (r: usize)
    ensures
        r == byte_len(s@),
{
    s.as_bytes().len()
}

/// Inserts `x` after every text no longer than it.
pub open spec fn insert_by_len(sorted: Seq<Seq<char>>, x: Seq<char>) -> Seq<Seq<char>>
    decreases sorted.len(),
{
    if sorted.len() == 0 {
        seq![x]
    } else if byte_len(sorted[0]) <= byte_len(x) {
        seq![sorted[0]] + insert_by_len(sorted.drop_first(), x)
    } else {
        seq![x] + sorted
    }
}

/// The texts ordered by ascending byte length, texts of equal length keeping
/// their order.
pub open spec fn by_len(texts: Seq<Seq<char>>) -> Seq<Seq<char>>
    decreases texts.len(),
{
    if texts.len() == 0 {
        Seq::empty()
    } else {
        insert_by_len(by_len(texts.drop_last()), texts.last())
    }
}

/// Inserting at the first position holding a longer text is what
/// `insert_by_len` does.
proof fn lemma_insert_by_len(sorted: Seq<Seq<char>>, x: Seq<char>, p: int)
    requires
        0 <= p <= sorted.len(),
        forall|j: int| 0 <= j < p ==> byte_len(#[trigger] sorted[j]) <= byte_len(x),
        p < sorted.len() ==> byte_len(sorted[p]) > byte_len(x),
    ensures
        insert_by_len(sorted, x) == sorted.insert(p, x),
    decreases sorted.len(),
{
    if sorted.len() == 0 {
        assert(sorted.insert(p, x) =~= seq![x]);
    } else if p == 0 {
        assert(seq![x] + sorted =~= sorted.insert(0, x));
    } else {
        let rest = sorted.drop_first();
        assert forall|j: int| 0 <= j < p - 1 implies byte_len(#[trigger] rest[j]) <= byte_len(x) by {
            assert(rest[j] == sorted[j + 1]);
        }
        lemma_insert_by_len(rest, x, p - 1);
        assert(seq![sorted[0]] + rest.insert(p - 1, x) =~= sorted.insert(p, x));
    }
}

/// Whether the texts come in ascending byte length.
pub open spec fn ascending_by_len(texts: Seq<Seq<char>>) -> bool {
    forall|i: int, j: int| 0 <= i <= j < texts.len() ==> byte_len(#[trigger] texts[i]) <= byte_len(#[trigger] texts[j])
}

/// Inserting a text into texts of ascending length keeps them ascending and
/// adds exactly that text.
proof fn lemma_insert_by_len_keeps_order(sorted: Seq<Seq<char>>, x: Seq<char>)
    requires
        ascending_by_len(sorted),
    ensures
        ascending_by_len(insert_by_len(sorted, x)),
        insert_by_len(sorted, x).to_multiset() == sorted.to_multiset().insert(x),
    decreases sorted.len(),
{
    broadcast use vstd::seq_lib::group_to_multiset_ensures, vstd::multiset::group_multiset_axioms;

    let r = insert_by_len(sorted, x);
    if sorted.len() == 0 {
        assert(Seq::<Seq<char>>::empty().push(x) =~= seq![x]);
        assert(sorted.to_multiset() =~= Multiset::<Seq<char>>::empty());
    } else if byte_len(sorted[0]) <= byte_len(x) {
        let rest = sorted.drop_first();
        let ins = insert_by_len(rest, x);
        assert(ascending_by_len(rest)) by {
            assert forall|i: int, j: int| 0 <= i <= j < rest.len() implies byte_len(#[trigger] rest[i])
                <= byte_len(#[trigger] rest[j]) by {
                assert(rest[i] == sorted[i + 1] && rest[j] == sorted[j + 1]);
            }
        }
        lemma_insert_by_len_keeps_order(rest, x);
        assert(sorted =~= seq![sorted[0]] + rest);
        vstd::seq_lib::lemma_multiset_commutative(seq![sorted[0]], rest);
        vstd::seq_lib::lemma_multiset_commutative(seq![sorted[0]], ins);
        assert(r.to_multiset() =~= sorted.to_multiset().insert(x));
        assert forall|i: int, j: int| 0 <= i <= j < r.len() implies byte_len(#[trigger] r[i]) <= byte_len(
            #[trigger] r[j],
        ) by {
            if i == 0 {
                if j > 0 {
                    assert(r[j] == ins[j - 1]);
                    assert(ins.to_multiset().count(ins[j - 1]) > 0);
                    if ins[j - 1] != x {
                        assert(rest.to_multiset().count(ins[j - 1]) > 0);
                        let k = rest.index_of(ins[j - 1]);
                        assert(rest[k] == sorted[k + 1]);
                    }
                }
            } else {
                assert(r[i] == ins[i - 1] && r[j] == ins[j - 1]);
            }
        }
    } else {
        vstd::seq_lib::lemma_multiset_commutative(seq![x], sorted);
        assert(r.to_multiset() =~= sorted.to_multiset().insert(x));
        assert forall|i: int, j: int| 0 <= i <= j < r.len() implies byte_len(#[trigger] r[i]) <= byte_len(
            #[trigger] r[j],
        ) by {
            if i == 0 {
                if j > 0 {
                    assert(r[j] == sorted[j - 1]);
                    assert(byte_len(sorted[0]) <= byte_len(sorted[j - 1]));
                }
            } else {
                assert(r[i] == sorted[i - 1] && r[j] == sorted[j - 1]);
            }
        }
    }
}

/// Ranking puts the texts in ascending byte length and keeps every text, as
/// often as it occurs.
pub proof fn lemma_ranking_orders_and_keeps(texts: Seq<Seq<char>>)
    ensures
        ascending_by_len(by_len(texts)),
        by_len(texts).to_multiset() == texts.to_multiset(),
    decreases texts.len(),
{
    broadcast use vstd::seq_lib::group_to_multiset_ensures, vstd::multiset::group_multiset_axioms;

    if texts.len() == 0 {
        assert(texts.to_multiset() =~= Multiset::<Seq<char>>::empty());
        assert(by_len(texts).to_multiset() =~= Multiset::<Seq<char>>::empty());
    } else {
        lemma_ranking_orders_and_keeps(texts.drop_last());
        lemma_insert_by_len_keeps_order(by_len(texts.drop_last()), texts.last());
        assert(texts.drop_last().push(texts.last()) =~= texts);
    }
}

/// The texts of byte length `n`.
pub open spec fn of_len(n: nat) -> spec_fn(Seq<char>) -> bool {
    |t: Seq<char>| byte_len(t) == n
}

/// Inserting a text into texts of ascending length puts it after every text of
/// its own length.
proof fn lemma_insert_by_len_is_stable(sorted: Seq<Seq<char>>, x: Seq<char>, n: nat)
    requires
        ascending_by_len(sorted),
    ensures
        insert_by_len(sorted, x).filter(of_len(n)) == sorted.filter(of_len(n)) + (if byte_len(x) == n {
            seq![x]
        } else {
            Seq::<Seq<char>>::empty()
        }),
    decreases sorted.len(),
{
    reveal(Seq::filter);
    let f = of_len(n);
    let tail = if byte_len(x) == n {
        seq![x]
    } else {
        Seq::<Seq<char>>::empty()
    };
    if sorted.len() == 0 {
        Seq::<Seq<char>>::empty().lemma_filter_prepend(x, f);
        assert(seq![x] + Seq::<Seq<char>>::empty() =~= seq![x]);
        assert(Seq::<Seq<char>>::empty().filter(f) =~= Seq::<Seq<char>>::empty());
        assert(sorted =~= Seq::<Seq<char>>::empty());
        assert(insert_by_len(sorted, x).filter(f) =~= sorted.filter(f) + tail);
    } else if byte_len(sorted[0]) <= byte_len(x) {
        let rest = sorted.drop_first();
        assert(ascending_by_len(rest)) by {
            assert forall|i: int, j: int| 0 <= i <= j < rest.len() implies byte_len(#[trigger] rest[i])
                <= byte_len(#[trigger] rest[j]) by {
                assert(rest[i] == sorted[i + 1] && rest[j] == sorted[j + 1]);
            }
        }
        lemma_insert_by_len_is_stable(rest, x, n);
        rest.lemma_filter_prepend(sorted[0], f);
        insert_by_len(rest, x).lemma_filter_prepend(sorted[0], f);
        assert(sorted =~= seq![sorted[0]] + rest);
        let head = if f(sorted[0]) {
            seq![sorted[0]]
        } else {
            Seq::<Seq<char>>::empty()
        };
        assert(insert_by_len(sorted, x).filter(f) == head + (rest.filter(f) + tail));
        assert(sorted.filter(f) == head + rest.filter(f));
        assert(head + (rest.filter(f) + tail) =~= (head + rest.filter(f)) + tail);
    } else {
        sorted.lemma_filter_prepend(x, f);
        if byte_len(x) == n {
            assert(sorted.all(|t: Seq<char>| !f(t))) by {
                assert forall|i: int| 0 <= i < sorted.len() implies !f(#[trigger] sorted[i]) by {
                    assert(byte_len(sorted[0]) <= byte_len(sorted[i]));
                }
            }
            sorted.lemma_all_neg_filter_empty(f);
            assert(sorted.filter(f) =~= Seq::<Seq<char>>::empty());
            assert(insert_by_len(sorted, x).filter(f) =~= sorted.filter(f) + tail);
        } else {
            assert(insert_by_len(sorted, x).filter(f) =~= sorted.filter(f) + tail);
        }
    }
}

/// Ranking keeps texts of equal length in the order they were given.
pub proof fn lemma_ranking_is_stable(texts: Seq<Seq<char>>, n: nat)
    ensures
        by_len(texts).filter(of_len(n)) == texts.filter(of_len(n)),
    decreases texts.len(),
{
    reveal(Seq::filter);
    if texts.len() > 0 {
        let init = texts.drop_last();
        lemma_ranking_is_stable(init, n);
        lemma_ranking_orders_and_keeps(init);
        lemma_insert_by_len_is_stable(by_len(init), texts.last(), n);
        let f = of_len(n);
        if f(texts.last()) {
            assert(texts.filter(f) == init.filter(f).push(texts.last()));
            assert(init.filter(f) + seq![texts.last()] =~= init.filter(f).push(texts.last()));
        } else {
            assert(init.filter(f) + Seq::<Seq<char>>::empty() =~= init.filter(f));
        }
    }
}

/// Ranks explanations by simplicity.
pub struct ExplanationRanker;

impl ExplanationRanker {
    /// The explanations from shortest to longest (in bytes); explanations of
    /// equal length keep their order.
    pub fn rank(explanations: &[String]) -> (r: Vec<String>)
        ensures
            r@.map_values(|s: String| s@) == by_len(explanations@.map_values(|s: String| s@)),
    {
        let ghost texts = explanations@.map_values(|s: String| s@);
        let mut sorted: Vec<String> = Vec::new();
        let mut i: usize = 0;
        while i < explanations.len()
            invariant
                i <= explanations@.len(),
                texts == explanations@.map_values(|s: String| s@),
                sorted@.map_values(|s: String| s@) == by_len(texts.take(i as int)),
            decreases explanations@.len() - i,
        {
            let x = explanations[i].clone();
            let xl = text_byte_len(x.as_str());
            let mut p: usize = 0;
            while p < sorted.len() && text_byte_len(sorted[p].as_str()) <= xl
                invariant
                    p <= sorted@.len(),
                    xl == byte_len(x@),
                    forall|j: int| 0 <= j < p ==> byte_len((#[trigger] sorted@[j])@) <= byte_len(x@),
                decreases sorted@.len() - p,
            {
                p = p + 1;
            }
            let ghost before = sorted@.map_values(|s: String| s@);
            proof {
                assert forall|j: int| 0 <= j < p implies byte_len(#[trigger] before[j]) <= byte_len(x@) by {
                    assert(before[j] == sorted@[j]@);
                }
                if p < sorted@.len() {
                    assert(before[p as int] == sorted@[p as int]@);
                }
                lemma_insert_by_len(before, x@, p as int);
                assert(texts.take(i + 1).drop_last() =~= texts.take(i as int));
                assert(texts.take(i + 1).last() == x@);
            }
            let ghost xv = x@;
            sorted.insert(p, x);
            proof {
                assert(sorted@.map_values(|s: String| s@) =~= before.insert(p as int, xv));
            }
            i = i + 1;
        }
        proof {
            assert(texts.take(texts.len() as int) =~= texts);
        }
        sorted
    }

    /// Proposes recording a ranking: the explanations joined by `;`.
    pub fn propose_ranking(ranked: Vec<String>) -> (r: EventPayload)
        ensures
            is_custom_payload(
                r,
                "AbductiveExplanationsRanked"@,
                join_with(ranked@.map_values(|s: String| s@), ";"@),
            ),
    {
        let joined = join_texts(&ranked, ";");
        custom_payload("AbductiveExplanationsRanked", &joined)
    }
}

} // verus!
