use crate::canonical_state::duplicate::Duplicate;
use vstd::prelude::*;
use vstd::utf8::{encode_utf8, encode_utf8_decode_utf8};

verus! {

/// Byte-wise lexicographic order: `a` comes strictly before `b`. This is how
/// `String` keys are ordered (their UTF-8 bytes compared in turn).
pub open spec fn bytes_lt(a: Seq<u8>, b: Seq<u8>) -> bool
    decreases a.len(),
{
    if a.len() == 0 {
        b.len() > 0
    } else if b.len() == 0 {
        false
    } else if a[0] != b[0] {
        a[0] < b[0]
    } else {
        bytes_lt(a.drop_first(), b.drop_first())
    }
}

/// The order of two texts: the order of their UTF-8 bytes.
pub open spec fn text_lt(a: Seq<char>, b: Seq<char>) -> bool {
    bytes_lt(encode_utf8(a), encode_utf8(b))
}

/// The byte order is transitive.
pub proof fn lemma_bytes_lt_transitive(a: Seq<u8>, b: Seq<u8>, c: Seq<u8>)
    requires
        bytes_lt(a, b),
        bytes_lt(b, c),
    ensures
        bytes_lt(a, c),
    decreases a.len(),
{
    if a.len() > 0 && b.len() > 0 && c.len() > 0 && a[0] == b[0] && b[0] == c[0] {
        lemma_bytes_lt_transitive(a.drop_first(), b.drop_first(), c.drop_first());
    }
}

/// The byte order is irreflexive and total on distinct sequences.
pub proof fn lemma_bytes_lt_total(a: Seq<u8>, b: Seq<u8>)
    ensures
        !bytes_lt(a, a),
        a != b ==> bytes_lt(a, b) || bytes_lt(b, a),
        !(bytes_lt(a, b) && bytes_lt(b, a)),
    decreases a.len(),
{
    if a.len() > 0 && b.len() > 0 {
        lemma_bytes_lt_total(a.drop_first(), b.drop_first());
        lemma_bytes_lt_total(a.drop_first(), a.drop_first());
        if a[0] == b[0] && a != b {
            assert(a.drop_first() != b.drop_first()) by {
                if a.drop_first() == b.drop_first() {
                    assert(a =~= seq![a[0]] + a.drop_first());
                    assert(b =~= seq![b[0]] + b.drop_first());
                }
            }
        }
    } else if a.len() > 0 {
        lemma_bytes_lt_total(a.drop_first(), a.drop_first());
    } else if b.len() == 0 {
        assert(a =~= b);
    }
}

/// Distinct texts have distinct UTF-8 encodings.
pub proof fn lemma_encoding_injective(a: Seq<char>, b: Seq<char>)
    requires
        encode_utf8(a) == encode_utf8(b),
    ensures
        a == b,
{
    encode_utf8_decode_utf8(a);
    encode_utf8_decode_utf8(b);
}

/// A map keyed by text, holding its entries in ascending key order.
#[derive(Debug, Clone, PartialEq, Eq)]
pub struct TextMap<V> {
    entries: Vec<(String, V)>,
}

impl<V> TextMap<V> {
    /// The keys, in ascending order.
    pub closed spec fn keys(&self) -> Seq<Seq<char>> {
        self.entries@.map_values(|e: (String, V)| e.0@)
    }

    /// The values, in the order of their keys.
    pub closed spec fn values_in_order(&self) -> Seq<V> {
        self.entries@.map_values(|e: (String, V)| e.1)
    }

    /// Whether the keys ascend strictly.
    pub open spec fn well_formed(&self) -> bool {
        forall|i: int, j: int|
            0 <= i < j < self.keys().len() ==> text_lt(#[trigger] self.keys()[i], #[trigger] self.keys()[j])
    }

    /// The entries as a map from key to value.
    pub open spec fn as_map(&self) -> Map<Seq<char>, V> {
        Map::new(
            |k: Seq<char>| self.keys().contains(k),
            |k: Seq<char>| self.values_in_order()[self.keys().index_of(k)],
        )
    }

    proof fn lemma_lengths(&self)
        ensures
            self.keys().len() == self.entries@.len(),
            self.values_in_order().len() == self.entries@.len(),
            forall|i: int| 0 <= i < self.entries@.len() ==> #[trigger] self.keys()[i] == self.entries@[i].0@,
            forall|i: int| 0 <= i < self.entries@.len() ==> #[trigger] self.values_in_order()[i] == self.entries@[i].1,
    {
    }

    /// In a well-formed map, each key sits at one position.
    pub proof fn lemma_key_position(&self, i: int)
        requires
            self.well_formed(),
            0 <= i < self.keys().len(),
        ensures
            self.keys().index_of(self.keys()[i]) == i,
            self.as_map().dom().contains(self.keys()[i]),
            self.as_map()[self.keys()[i]] == self.values_in_order()[i],
    {
        let k = self.keys()[i];
        assert(self.keys().contains(k));
        let j = self.keys().index_of(k);
        if j != i {
            lemma_bytes_lt_total(encode_utf8(k), encode_utf8(k));
            if j < i {
                assert(text_lt(self.keys()[j], self.keys()[i]));
            } else {
                assert(text_lt(self.keys()[i], self.keys()[j]));
            }
        }
    }

    /// The empty map.
    pub fn new() -> (r: Self)
        ensures
            r.well_formed(),
            r.keys().len() == 0,
            r.as_map() == Map::<Seq<char>, V>::empty(),
    {
        let r = TextMap { entries: Vec::new() };
        proof {
            assert(r.as_map() =~= Map::<Seq<char>, V>::empty());
        }
        r
    }

    pub fn len(&self) -> (r: usize)
        ensures
            r == self.keys().len(),
    {
        self.entries.len()
    }

    pub fn is_empty(&self) -> (r: bool)
        ensures
            r == (self.keys().len() == 0),
    {
        self.entries.len() == 0
    }

    /// The entries, in ascending order of their keys.
    pub fn as_pairs(&self) -> (r: &[(String, V)])
        ensures
            r@.map_values(|e: (String, V)| e.0@) == self.keys(),
            r@.map_values(|e: (String, V)| e.1) == self.values_in_order(),
    {
        self.entries.as_slice()
    }

    /// The values, in ascending order of their keys.
    pub fn values(&self) -> (r: Vec<&V>)
        ensures
            r@.len() == self.keys().len(),
            r@.len() == self.values_in_order().len(),
            forall|i: int| 0 <= i < r@.len() ==> *r@[i] == self.values_in_order()[i],
    {
        let mut r: Vec<&V> = Vec::new();
        let mut i: usize = 0;
        while i < self.entries.len()
            invariant
                i <= self.entries@.len(),
                r@.len() == i,
                forall|j: int| 0 <= j < i ==> *r@[j] == self.values_in_order()[j],
            decreases self.entries@.len() - i,
        {
            proof {
                self.lemma_lengths();
            }
            r.push(&self.entries[i].1);
            i = i + 1;
        }
        proof {
            self.lemma_lengths();
        }
        r
    }

    /// Inserts or replaces the value of `key`, keeping the keys in order, and
    /// returns the value it replaced.
    pub fn insert(&mut self, key: String, value: V) -> (r: Option<V>)
        requires
            old(self).well_formed(),
        ensures
            final(self).well_formed(),
            final(self).as_map() == old(self).as_map().insert(key@, value),
            r == (if old(self).as_map().dom().contains(key@) {
                Some(old(self).as_map()[key@])
            } else {
                None
            }),
    {
        let n = self.entries.len();
        let mut p: usize = 0;
        proof {
            self.lemma_lengths();
        }
        while p < n && bytes_before(self.entries[p].0.as_str().as_bytes(), key.as_str().as_bytes())
            invariant
                n == self.entries@.len(),
                p <= n,
                self.well_formed(),
                forall|j: int| 0 <= j < p ==> text_lt(#[trigger] self.keys()[j], key@),
                self.keys().len() == n,
                forall|i: int| 0 <= i < n ==> #[trigger] self.keys()[i] == self.entries@[i].0@,
            decreases n - p,
        {
            p = p + 1;
        }
        let ghost old_self = *self;
        proof {
            self.lemma_lengths();
        }
        if p < n && same_bytes(self.entries[p].0.as_str().as_bytes(), key.as_str().as_bytes()) {
            proof {
                lemma_encoding_injective(self.keys()[p as int], key@);
                self.lemma_key_position(p as int);
            }
            let mut entry = (key, value);
            let ghost kv = entry.0@;
            let ghost vv = entry.1;
            std::mem::swap(&mut entry, &mut self.entries[p]);
            proof {
                old_self.lemma_lengths();
                self.lemma_lengths();
                assert(self.keys() =~= old_self.keys());
                assert(self.values_in_order() =~= old_self.values_in_order().update(p as int, vv));
                assert forall|k: Seq<char>| #![auto] self.as_map().dom().contains(k) implies self.as_map()[k] == old_self.as_map().insert(kv, vv)[k] by {
                    let j = self.keys().index_of(k);
                    self.lemma_key_position(j);
                    old_self.lemma_key_position(j);
                }
                assert(self.as_map() =~= old_self.as_map().insert(kv, vv));
            }
            Some(entry.1)
        } else {
            proof {
                if p < n {
                    lemma_bytes_lt_total(encode_utf8(self.keys()[p as int]), encode_utf8(key@));
                    assert(encode_utf8(self.keys()[p as int]) != encode_utf8(key@));
                    assert(text_lt(key@, self.keys()[p as int]));
                }
                assert(!old_self.as_map().dom().contains(key@)) by {
                    if old_self.keys().contains(key@) {
                        let j = old_self.keys().index_of(key@);
                        lemma_bytes_lt_total(encode_utf8(key@), encode_utf8(key@));
                        if j >= p {
                            if j > p {
                                lemma_bytes_lt_transitive(encode_utf8(key@), encode_utf8(old_self.keys()[p as int]), encode_utf8(old_self.keys()[j]));
                            }
                        }
                    }
                }
            }
            let ghost kv = key@;
            self.entries.insert(p, (key, value));
            proof {
                self.lemma_lengths();
                old_self.lemma_lengths();
                assert(self.keys() =~= old_self.keys().insert(p as int, kv));
                assert(self.values_in_order() =~= old_self.values_in_order().insert(p as int, value));
                assert forall|i: int, j: int| 0 <= i < j < self.keys().len() implies text_lt(#[trigger] self.keys()[i], #[trigger] self.keys()[j]) by {
                    if j < p {
                        assert(text_lt(old_self.keys()[i], old_self.keys()[j]));
                    } else if j == p {
                        assert(text_lt(old_self.keys()[i], kv));
                    } else if i < p {
                        assert(self.keys()[j] == old_self.keys()[j - 1]);
                        assert(text_lt(old_self.keys()[i], old_self.keys()[j - 1]));
                    } else if i == p {
                        assert(self.keys()[j] == old_self.keys()[j - 1]);
                        assert(text_lt(kv, old_self.keys()[p as int]));
                        if j - 1 > p {
                            assert(text_lt(old_self.keys()[p as int], old_self.keys()[j - 1]));
                            lemma_bytes_lt_transitive(encode_utf8(kv), encode_utf8(old_self.keys()[p as int]), encode_utf8(old_self.keys()[j - 1]));
                        }
                    } else {
                        assert(self.keys()[i] == old_self.keys()[i - 1]);
                        assert(self.keys()[j] == old_self.keys()[j - 1]);
                        assert(text_lt(old_self.keys()[i - 1], old_self.keys()[j - 1]));
                    }
                }
                assert forall|k: Seq<char>| #![auto] self.as_map().dom().contains(k) implies self.as_map()[k] == old_self.as_map().insert(kv, value)[k] by {
                    let j = self.keys().index_of(k);
                    self.lemma_key_position(j);
                    if j < p {
                        old_self.lemma_key_position(j);
                    } else if j > p {
                        old_self.lemma_key_position(j - 1);
                    }
                }
                assert forall|k: Seq<char>| #![auto] old_self.as_map().insert(kv, value).dom().contains(k) implies self.as_map().dom().contains(k) by {
                    if k == kv {
                        assert(self.keys()[p as int] == kv);
                    } else {
                        let j = old_self.keys().index_of(k);
                        old_self.lemma_key_position(j);
                        if j < p {
                            assert(self.keys()[j] == k);
                        } else {
                            assert(self.keys()[j + 1] == k);
                        }
                    }
                }
                assert(self.as_map() =~= old_self.as_map().insert(kv, value));
            }
            None
        }
    }
}

/// Whether `a` comes strictly before `b` in byte order.
fn bytes_before(a: &[u8], b: &[u8]) -> (r: bool)
    ensures
        r == bytes_lt(a@, b@),
{
    let mut i: usize = 0;
    assert(a@.skip(0) =~= a@);
    assert(b@.skip(0) =~= b@);
    while i < a.len() && i < b.len() && a[i] == b[i]
        invariant
            i <= a@.len(),
            i <= b@.len(),
            bytes_lt(a@, b@) == bytes_lt(a@.skip(i as int), b@.skip(i as int)),
        decreases a@.len() - i,
    {
        proof {
            assert(a@.skip(i as int).drop_first() =~= a@.skip(i + 1));
            assert(b@.skip(i as int).drop_first() =~= b@.skip(i + 1));
        }
        i = i + 1;
    }
    if i == a.len() {
        i < b.len()
    } else if i == b.len() {
        false
    } else {
        a[i] < b[i]
    }
}

/// Whether two byte strings are equal.
fn same_bytes(a: &[u8], b: &[u8]) -> (r: bool)
    ensures
        r == (a@ == b@),
{
    if a.len() != b.len() {
        return false;
    }
    let mut i: usize = 0;
    while i < a.len()
        invariant
            a@.len() == b@.len(),
            i <= a@.len(),
            forall|j: int| 0 <= j < i ==> a@[j] == b@[j],
        decreases a@.len() - i,
    {
        if a[i] != b[i] {
            return false;
        }
        i = i + 1;
    }
    assert(a@ =~= b@);
    true
}

impl<V: Duplicate> Duplicate for TextMap<V> {
    type Contents = Seq<(Seq<char>, V::Contents)>;

    closed spec fn contents(&self) -> Seq<(Seq<char>, V::Contents)> {
        self.entries@.map_values(|e: (String, V)| (e.0@, e.1.contents()))
    }

    fn duplicate(&self) -> (r: TextMap<V>)
        ensures
            r.keys() == self.keys(),
            r.well_formed() == self.well_formed(),
    {
        let mut entries: Vec<(String, V)> = Vec::new();
        let mut i: usize = 0;
        proof {
            assert(entries@ =~= self.entries@.take(0));
        }
        while i < self.entries.len()
            invariant
                i <= self.entries@.len(),
                entries@.len() == i,
                forall|j: int| 0 <= j < i ==> (#[trigger] entries@[j]).0@ == self.entries@[j].0@
                    && entries@[j].1.contents() == self.entries@[j].1.contents(),
            decreases self.entries@.len() - i,
        {
            let k = self.entries[i].0.clone();
            let v = self.entries[i].1.duplicate();
            entries.push((k, v));
            i = i + 1;
        }
        let r = TextMap { entries };
        proof {
            assert(r.keys() =~= self.keys());
            assert(r.contents() =~= self.contents());
        }
        r
    }
}

} // verus!
