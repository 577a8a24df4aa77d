use crate::kernel_core::digest::{sha256, sha256_digest};
use crate::canonical_state::text_map::bytes_lt;
use crate::text::{append_bytes, hex, hex_char, hex_text};
use vstd::prelude::*;
use vstd::std_specs::cmp::PartialEqSpecImpl;
use vstd::utf8::{encode_utf8, is_ascii_chars, is_ascii_chars_encode_utf8, is_continuation_byte};

verus! {

/// A 32-byte SHA-256 digest that links events and states.
#[derive(Debug, Clone, Copy, Hash, Ord)]
pub struct EventHash([u8; 32]);

impl View for EventHash {
    type V = Seq<u8>;

    closed spec fn view(&self) -> Seq<u8> {
        self.0@
    }
}

/// Every hash holds exactly 32 bytes.
pub broadcast proof fn lemma_event_hash_len(h: EventHash)
    ensures
        #[trigger] h@.len() == 32,
{
}

/// Hashes with the same bytes are the same hash.
pub broadcast proof fn lemma_event_hash_ext(a: EventHash, b: EventHash)
    requires
        #[trigger] a@ == #[trigger] b@,
    ensures
        a == b,
{
    assert(a.0@ =~= b.0@);
    vstd::array::axiom_array_ext_equal(a.0, b.0);
}

impl PartialEq for EventHash {
    fn eq(&self, other: &Self) -> (r: bool) {
        let mut i: usize = 0;
        while i < 32
            invariant
                i <= 32,
                forall|j: int| 0 <= j < i ==> self.0@[j] == other.0@[j],
            decreases 32 - i,
        {
            if self.0[i] != other.0[i] {
                return false;
            }
            i = i + 1;
        }
        proof {
            assert(self.0@ =~= other.0@);
        }
        true
    }
}

impl PartialEqSpecImpl for EventHash {
    open spec fn obeys_eq_spec() -> bool {
        true
    }

    open spec fn eq_spec(&self, other: &Self) -> bool {
        self@ == other@
    }
}

impl Eq for EventHash {

}

/// Where two byte strings of equal length first differ, byte order decides
/// which comes first.
pub proof fn lemma_bytes_lt_at_first_difference(a: Seq<u8>, b: Seq<u8>, i: int)
    requires
        a.len() == b.len(),
        0 <= i < a.len(),
        a.take(i) == b.take(i),
        a[i] != b[i],
    ensures
        bytes_lt(a, b) == (a[i] < b[i]),
    decreases i,
{
    if i > 0 {
        assert(a.take(i)[0] == a[0]);
        assert(b.take(i)[0] == b[0]);
        assert(a[0] == b[0]);
        assert(a.drop_first()[i - 1] == a[i] && b.drop_first()[i - 1] == b[i]);
        assert(a.drop_first().take(i - 1) =~= a.take(i).drop_first());
        assert(b.drop_first().take(i - 1) =~= b.take(i).drop_first());
        lemma_bytes_lt_at_first_difference(a.drop_first(), b.drop_first(), i - 1);
    }
}

impl EventHash {
    /// The index of the first byte where two hashes differ; 32 when they are
    /// the same hash.
    pub(crate) fn first_difference(&self, other: &EventHash) -> (r: usize)
        ensures
            r <= 32,
            r == 32 <==> self@ == other@,
            r < 32 ==> self@[r as int] != other@[r as int] && bytes_lt(self@, other@) == (self@[r as int]
                < other@[r as int]),
    {
        let mut i: usize = 0;
        while i < 32
            invariant
                i <= 32,
                self.0@.len() == 32,
                other.0@.len() == 32,
                self.0@.take(i as int) == other.0@.take(i as int),
            decreases 32 - i,
        {
            if self.0[i] != other.0[i] {
                proof {
                    lemma_bytes_lt_at_first_difference(self.0@, other.0@, i as int);
                }
                return i;
            }
            proof {
                assert(self.0@.take(i + 1) =~= self.0@.take(i as int).push(self.0@[i as int]));
                assert(other.0@.take(i + 1) =~= other.0@.take(i as int).push(other.0@[i as int]));
            }
            i = i + 1;
        }
        proof {
            assert(self.0@ =~= self.0@.take(32));
            assert(other.0@ =~= other.0@.take(32));
        }
        i
    }
}

/// Thirty-two zero bytes.
pub open spec fn zero_hash_bytes() -> Seq<u8> {
    Seq::new(32, |i: int| 0u8)
}

/// The value of an ASCII hexadecimal digit byte, either case.
pub open spec fn hex_digit_value(c: u8) -> Option<u8> {
    if 48 <= c <= 57 {
        Some((c - 48) as u8)
    } else if 97 <= c <= 102 {
        Some((c - 87) as u8)
    } else if 65 <= c <= 70 {
        Some((c - 55) as u8)
    } else {
        None
    }
}

/// What `u8::from_str_radix(_, 16)` yields for a two-byte text: two hex digits,
/// or `+` followed by one hex digit.
pub open spec fn hex_pair(b0: u8, b1: u8) -> Option<u8> {
    if b0 == 43 {
        hex_digit_value(b1)
    } else {
        match (hex_digit_value(b0), hex_digit_value(b1)) {
            (Some(x), Some(y)) => Some((x * 16 + y) as u8),
            _ => None,
        }
    }
}

/// Whether the `i`-th two-byte chunk of `b` reads as a byte.
pub open spec fn chunk_ok(b: Seq<u8>, i: int) -> bool {
    hex_pair(b[2 * i], b[2 * i + 1]) is Some
}

/// Whether reading `s` as a hash would cut a character in two: some chunk
/// fails to read, every chunk before it read, and the chunk ends inside a
/// multi-byte character.
pub open spec fn hash_text_splits_char(s: Seq<char>) -> bool {
    let b = encode_utf8(s);
    &&& b.len() == 64
    &&& exists|i: int|
        0 <= i < 31 && !chunk_ok(b, i) && (forall|j: int| 0 <= j < i ==> chunk_ok(b, j))
            && is_continuation_byte(#[trigger] b[2 * i + 2])
}

/// Why a text is not a hash.
#[derive(Debug, Clone, Copy, PartialEq, Eq, Structural)]
pub enum ParseEventHashReason {
    EmptyInput,
    InvalidLength,
    InvalidHex,
}

/// A text that could not be read as a hash, with the reason.
#[derive(Debug, Clone, PartialEq, Eq)]
pub struct ParseEventHashError {
    pub input: String,
    pub reason: ParseEventHashReason,
}

/// What reading `s` as a hash yields: 64 bytes of text, read two at a time as
/// hexadecimal bytes.
pub open spec fn parse_event_hash(s: Seq<char>) -> Result<Seq<u8>, ParseEventHashReason> {
    let b = encode_utf8(s);
    if b.len() != 64 {
        Err(ParseEventHashReason::InvalidLength)
    } else if forall|i: int| 0 <= i < 32 ==> #[trigger] chunk_ok(b, i) {
        Ok(Seq::new(32, |i: int| hex_pair(b[2 * i], b[2 * i + 1]).unwrap()))
    } else {
        Err(ParseEventHashReason::InvalidHex)
    }
}

/// The digest that binds an event: SHA-256 over the parent hash, the id text,
/// the time text and the payload hash, in that order.
pub open spec fn event_digest(parent: Seq<u8>, id_bytes: Seq<u8>, time_bytes: Seq<u8>, payload_hash: Seq<u8>) -> Seq<u8> {
    sha256(parent + id_bytes + time_bytes + payload_hash)
}

impl EventHash {
    /// The all-zero hash, the parent of the genesis event.
    pub fn zero() -> (r: Self)
        ensures
            r@ == zero_hash_bytes(),
    {
        let bytes: [u8; 32] = [0u8; 32];
        proof {
            broadcast use vstd::array::group_array_axioms;
            assert(bytes@.len() == 32);
            assert(bytes == vstd::array::spec_array_fill_for_copy_type::<u8, 32>(0u8));
            assert(bytes@ =~= zero_hash_bytes());
        }
        EventHash(bytes)
    }

    pub fn from_bytes(bytes: [u8; 32]) -> (r: Self)
        ensures
            r@ == bytes@,
    {
        EventHash(bytes)
    }

    pub fn as_bytes(&self) -> (r: &[u8; 32])
        ensures
            r@ == self@,
    {
        &self.0
    }

    /// Whether every byte is zero.
    pub fn is_zero(&self) -> (r: bool)
        ensures
            r == (self@ == zero_hash_bytes()),
    {
        let z = EventHash::zero();
        *self == z
    }

    /// The lower-case hexadecimal text of this hash.
    pub fn to_text(&self) -> (s: String)
        ensures
            s@ == hex(self@),
    {
        hex_text(self.0.as_slice())
    }

    /// Reads a hash from 64 bytes of hexadecimal text. A text whose two-byte
    /// chunks would cut a character in two (see `hash_text_splits_char`) is
    /// reported as invalid hexadecimal.
    pub fn parse(s: &str) -> (r: Result<EventHash, ParseEventHashError>)
        ensures
            match r {
                Ok(h) => parse_event_hash(s@) == Ok::<Seq<u8>, ParseEventHashReason>(h@),
                Err(e) => parse_event_hash(s@) == Err::<Seq<u8>, ParseEventHashReason>(e.reason)
                    && e.input@ == s@,
            },
    {
        let b = s.as_bytes();
        if b.len() != 64 {
            return Err(ParseEventHashError { input: s.to_owned(), reason: ParseEventHashReason::InvalidLength });
        }
        let mut bytes = [0u8; 32];
        let mut i: usize = 0;
        while i < 32
            invariant
                b@ == encode_utf8(s@),
                b@.len() == 64,
                i <= 32,
                forall|j: int| 0 <= j < i ==> #[trigger] chunk_ok(b@, j),
                forall|j: int| 0 <= j < i ==> bytes@[j] == hex_pair(b@[2 * j], b@[2 * j + 1]).unwrap(),
            decreases 32 - i,
        {
            match hex_pair_exec(b[2 * i], b[2 * i + 1]) {
                Some(v) => {
                    bytes[i] = v;
                },
                None => {
                    proof {
                        assert(!chunk_ok(b@, i as int));
                    }
                    return Err(ParseEventHashError { input: s.to_owned(), reason: ParseEventHashReason::InvalidHex });
                },
            }
            i = i + 1;
        }
        let h = EventHash(bytes);
        proof {
            assert(h@ =~= Seq::new(32, |i: int| hex_pair(b@[2 * i], b@[2 * i + 1]).unwrap()));
        }
        Ok(h)
    }
}

/// The characters of a hexadecimal text sit two per byte, high nibble first.
proof fn lemma_hex_layout(b: Seq<u8>)
    ensures
        hex(b).len() == 2 * b.len(),
        forall|i: int|
            0 <= i < b.len() ==> hex(b)[2 * i] == hex_char((b[i] / 16) as nat) && hex(b)[2 * i + 1]
                == hex_char((b[i] % 16) as nat),
    decreases b.len(),
{
    if b.len() > 0 {
        let p = b.drop_last();
        lemma_hex_layout(p);
        assert forall|i: int|
            0 <= i < b.len() implies hex(b)[2 * i] == hex_char((b[i] / 16) as nat) && hex(b)[2 * i
                + 1] == hex_char((b[i] % 16) as nat) by {
            if i < p.len() {
                assert(b[i] == p[i]);
            }
        }
    }
}

/// A nibble's hexadecimal character is ASCII and reads back as the nibble.
proof fn lemma_hex_char_reads_back(d: nat)
    requires
        d < 16,
    ensures
        (hex_char(d) as u32) < 128,
        hex_digit_value(hex_char(d) as u8) == Some(d as u8),
{
}

/// Reading the hexadecimal text of a hash gives its bytes back, and the text
/// never cuts a character in two.
pub proof fn lemma_hash_text_roundtrip(h: EventHash)
    ensures
        !hash_text_splits_char(hex(h@)),
        parse_event_hash(hex(h@)) == Ok::<Seq<u8>, ParseEventHashReason>(h@),
{
    let b = h@;
    let t = hex(b);
    lemma_hex_layout(b);
    assert forall|i: int| 0 <= i < t.len() implies '\0' <= #[trigger] t[i] <= '\u{7f}' by {
        let k = i / 2;
        assert(0 <= k < 32);
        lemma_hex_char_reads_back((b[k] / 16) as nat);
        lemma_hex_char_reads_back((b[k] % 16) as nat);
        if i % 2 == 0 {
            assert(i == 2 * k);
        } else {
            assert(i == 2 * k + 1);
        }
    }
    assert(is_ascii_chars(t));
    is_ascii_chars_encode_utf8(t);
    let e = encode_utf8(t);
    assert forall|i: int| 0 <= i < 32 implies #[trigger] chunk_ok(e, i) && hex_pair(e[2 * i], e[2 * i + 1]) == Some(b[i]) by {
        lemma_hex_char_reads_back((b[i] / 16) as nat);
        lemma_hex_char_reads_back((b[i] % 16) as nat);
        assert(e[2 * i] == t[2 * i] as u8);
        assert(e[2 * i + 1] == t[2 * i + 1] as u8);
        assert(hex_char((b[i] / 16) as nat) != '+');
    }
    assert(Seq::new(32, |i: int| hex_pair(e[2 * i], e[2 * i + 1]).unwrap()) =~= b);
}

impl core::str::FromStr for EventHash {
    type Err = ParseEventHashError;

    /// Reads a value from its text, as `EventHash::parse` does.
    fn from_str(s: &str) -> (r: Result<Self, Self::Err>)
        ensures
            match r {
                Ok(h) => parse_event_hash(s@) == Ok::<Seq<u8>, ParseEventHashReason>(h@),
                Err(e) => parse_event_hash(s@) == Err::<Seq<u8>, ParseEventHashReason>(e.reason)
                    && e.input@ == s@,
            },
    {
        EventHash::parse(s)
    }
}

fn hex_digit_exec(c: u8) -> (r: Option<u8>)
    ensures
        r == hex_digit_value(c),
{
    if 48 <= c && c <= 57 {
        Some(c - 48)
    } else if 97 <= c && c <= 102 {
        Some(c - 87)
    } else if 65 <= c && c <= 70 {
        Some(c - 55)
    } else {
        None
    }
}

fn hex_pair_exec(b0: u8, b1: u8) -> (r: Option<u8>)
    ensures
        r == hex_pair(b0, b1),
{
    if b0 == 43 {
        hex_digit_exec(b1)
    } else {
        match (hex_digit_exec(b0), hex_digit_exec(b1)) {
            (Some(x), Some(y)) => Some(x * 16 + y),
            _ => None,
        }
    }
}

/// SHA-256 over the parent hash, the id bytes, the time bytes and the payload hash.
pub fn compute_event_hash(
    parent_hash: &EventHash,
    event_id_bytes: &[u8],
    logical_time_bytes: &[u8],
    payload_hash: &EventHash,
) -> (r: EventHash)
    ensures
        r@ == event_digest(parent_hash@, event_id_bytes@, logical_time_bytes@, payload_hash@),
{
    let mut buf: Vec<u8> = Vec::new();
    append_bytes(&mut buf, parent_hash.0.as_slice());
    append_bytes(&mut buf, event_id_bytes);
    append_bytes(&mut buf, logical_time_bytes);
    append_bytes(&mut buf, payload_hash.0.as_slice());
    proof {
        assert(buf@ =~= parent_hash@ + event_id_bytes@ + logical_time_bytes@ + payload_hash@);
    }
    EventHash(sha256_digest(buf.as_slice()))
}

/// SHA-256 over the canonical bytes of a payload.
pub fn compute_payload_hash(payload_bytes: &[u8]) -> (r: EventHash)
    ensures
        r@ == sha256(payload_bytes@),
{
    EventHash(sha256_digest(payload_bytes))
}

} // verus!
