use crate::text::{
    append_decimal, chars_of, decimal, decimal_text, lemma_decimal_digits, lemma_parse_decimal,
    parse_u64, parse_u64_in,
};
use vstd::prelude::*;

verus! {

/// A deterministic event identifier: an epoch and a sequence number within it.
#[derive(Debug, Clone, Copy, PartialEq, Eq, Structural, Ord, Hash)]
pub struct EventId {
    pub epoch: u64,
    pub seq: u64,
}

/// The text of an identifier: `epoch.seq` in decimal.
pub open spec fn event_id_text(id: EventId) -> Seq<char> {
    decimal(id.epoch as nat) + seq!['.'] + decimal(id.seq as nat)
}

/// Whether `next` directly follows `prev`: the next sequence number in the same
/// epoch, or sequence 1 of the following epoch.
pub open spec fn id_follows(next: EventId, prev: EventId) -> bool {
    if next.epoch == prev.epoch {
        next.seq == prev.seq + 1
    } else if prev.epoch + 1 == next.epoch {
        next.seq == 1
    } else {
        false
    }
}

/// Why a text is not an identifier.
#[derive(Debug, Clone, Copy, PartialEq, Eq, Structural)]
pub enum ParseEventIdReason {
    MissingDot,
    InvalidEpoch,
    InvalidSeq,
    EmptyInput,
}

/// A text that could not be read as an identifier, with the reason.
#[derive(Debug, Clone, PartialEq, Eq)]
pub struct ParseEventIdError {
    pub input: String,
    pub reason: ParseEventIdReason,
}

/// The debug text of a reason: its name.
pub open spec fn parse_event_id_reason_text(r: ParseEventIdReason) -> Seq<char> {
    match r {
        ParseEventIdReason::MissingDot => "MissingDot"@,
        ParseEventIdReason::InvalidEpoch => "InvalidEpoch"@,
        ParseEventIdReason::InvalidSeq => "InvalidSeq"@,
        ParseEventIdReason::EmptyInput => "EmptyInput"@,
    }
}

impl ParseEventIdError {
    /// The message of this error: the text that was read and why it failed.
    pub fn to_text(&self) -> (r: String)
        ensures
            r@ == "Failed to parse EventId from '"@ + self.input@ + "': "@ + parse_event_id_reason_text(self.reason),
    {
        let mut r = String::from_str("Failed to parse EventId from '");
        r.append(self.input.as_str());
        r.append("': ");
        match self.reason {
            ParseEventIdReason::MissingDot => r.append("MissingDot"),
            ParseEventIdReason::InvalidEpoch => r.append("InvalidEpoch"),
            ParseEventIdReason::InvalidSeq => r.append("InvalidSeq"),
            ParseEventIdReason::EmptyInput => r.append("EmptyInput"),
        }
        r
    }
}

/// The index of the first `c` in `s`, if any.
pub open spec fn first_index_of(s: Seq<char>, c: char) -> Option<int> {
    if exists|i: int| 0 <= i < s.len() && s[i] == c {
        Some(choose|i: int| 0 <= i < s.len() && s[i] == c && forall|j: int| 0 <= j < i ==> s[j] != c)
    } else {
        None
    }
}

/// What reading `s` as an identifier yields: the error reason, or the identifier.
/// The text splits at its first `.`; both sides are read as `u64`.
pub open spec fn parse_event_id(s: Seq<char>) -> Result<EventId, ParseEventIdReason> {
    if s.len() == 0 {
        Err(ParseEventIdReason::EmptyInput)
    } else {
        match first_index_of(s, '.') {
            None => Err(ParseEventIdReason::MissingDot),
            Some(k) => match parse_u64(s.subrange(0, k)) {
                None => Err(ParseEventIdReason::InvalidEpoch),
                Some(epoch) => match parse_u64(s.subrange(k + 1, s.len() as int)) {
                    None => Err(ParseEventIdReason::InvalidSeq),
                    Some(seq) => Ok(EventId { epoch, seq }),
                },
            },
        }
    }
}

impl EventId {
    /// The identifier of the genesis event, `0.0`.
    pub fn zero() -> (r: Self)
        ensures
            r == (EventId { epoch: 0, seq: 0 }),
    {
        EventId { epoch: 0, seq: 0 }
    }

    pub fn new(epoch: u64, seq: u64) -> (r: Self)
        ensures
            r == (EventId { epoch, seq }),
    {
        EventId { epoch, seq }
    }

    /// The next identifier in the same epoch.
    pub fn next(&self) -> (r: Self)
        requires
            self.seq < u64::MAX,
        ensures
            r == (EventId { epoch: self.epoch, seq: (self.seq + 1) as u64 }),
    {
        EventId { epoch: self.epoch, seq: self.seq + 1 }
    }

    /// The first identifier of the following epoch.
    pub fn next_epoch(&self) -> (r: Self)
        requires
            self.epoch < u64::MAX,
        ensures
            r == (EventId { epoch: (self.epoch + 1) as u64, seq: 1 }),
    {
        EventId { epoch: self.epoch + 1, seq: 1 }
    }

    pub fn is_zero(&self) -> (r: bool)
        ensures
            r == (self.epoch == 0 && self.seq == 0),
    {
        self.epoch == 0 && self.seq == 0
    }

    /// The previous identifier in the same epoch, unless this one is at sequence 0.
    pub fn previous(&self) -> (r: Option<Self>)
        ensures
            r == (if self.seq == 0 {
                None
            } else {
                Some(EventId { epoch: self.epoch, seq: (self.seq - 1) as u64 })
            }),
    {
        if self.seq == 0 {
            None
        } else {
            Some(EventId { epoch: self.epoch, seq: self.seq - 1 })
        }
    }

    /// Whether this identifier directly follows `other`.
    pub fn is_next_of(&self, other: &EventId) -> (r: bool)
        ensures
            r == id_follows(*self, *other),
    {
        if self.epoch == other.epoch {
            other.seq < u64::MAX && self.seq == other.seq + 1
        } else if other.epoch < u64::MAX && other.epoch + 1 == self.epoch {
            self.seq == 1
        } else {
            false
        }
    }

    /// The text of this identifier, `epoch.seq`.
    pub fn to_text(&self) -> (s: String)
        ensures
            s@ == event_id_text(*self),
    {
        let mut s = decimal_text(self.epoch);
        proof { reveal_strlit("."); }
        s.append(".");
        append_decimal(&mut s, self.seq);
        s
    }

    /// Reads an identifier from its text.
    pub fn parse(s: &str) -> (r: Result<EventId, ParseEventIdError>)
        ensures
            match r {
                Ok(id) => parse_event_id(s@) == Ok::<EventId, ParseEventIdReason>(id),
                Err(e) => parse_event_id(s@) == Err::<EventId, ParseEventIdReason>(e.reason)
                    && e.input@ == s@,
            },
    {
        let cs = chars_of(s);
        if cs.len() == 0 {
            return Err(ParseEventIdError { input: s.to_owned(), reason: ParseEventIdReason::EmptyInput });
        }
        let mut k: usize = 0;
        while k < cs.len() && cs[k] != '.'
            invariant
                k <= cs@.len(),
                cs@ == s@,
                forall|j: int| 0 <= j < k ==> cs@[j] != '.',
            decreases cs@.len() - k,
        {
            k = k + 1;
        }
        if k == cs.len() {
            proof {
                assert(!(exists|i: int| 0 <= i < s@.len() && s@[i] == '.'));
            }
            return Err(ParseEventIdError { input: s.to_owned(), reason: ParseEventIdReason::MissingDot });
        }
        proof {
            lemma_first_index_of(s@, '.', k as int);
        }
        let epoch = match parse_u64_in(cs.as_slice(), 0, k) {
            Some(v) => v,
            None => {
                return Err(ParseEventIdError { input: s.to_owned(), reason: ParseEventIdReason::InvalidEpoch });
            },
        };
        let seq = match parse_u64_in(cs.as_slice(), k + 1, cs.len()) {
            Some(v) => v,
            None => {
                return Err(ParseEventIdError { input: s.to_owned(), reason: ParseEventIdReason::InvalidSeq });
            },
        };
        Ok(EventId { epoch, seq })
    }
}

impl core::str::FromStr for EventId {
    type Err = ParseEventIdError;

    /// Reads a value from its text, as `EventId::parse` does.
    fn from_str(s: &str) -> (r: Result<Self, Self::Err>)
        ensures
            match r {
                Ok(id) => parse_event_id(s@) == Ok::<EventId, ParseEventIdReason>(id),
                Err(e) => parse_event_id(s@) == Err::<EventId, ParseEventIdReason>(e.reason)
                    && e.input@ == s@,
            },
    {
        EventId::parse(s)
    }
}

/// The next identifier, and the first of the next epoch, each directly follow
/// an identifier; stepping back from the next identifier gives it back.
pub proof fn lemma_next_ids_follow(id: EventId)
    ensures
        id.seq < u64::MAX ==> id_follows(EventId { epoch: id.epoch, seq: (id.seq + 1) as u64 }, id),
        id.epoch < u64::MAX ==> id_follows(EventId { epoch: (id.epoch + 1) as u64, seq: 1 }, id),
        id.seq < u64::MAX ==> (EventId { epoch: id.epoch, seq: (id.seq + 1) as u64 }).seq != 0
            && id == (EventId { epoch: id.epoch, seq: ((id.seq + 1) as u64 - 1) as u64 }),
{
}

/// The first index of `c` is the position before which `c` does not occur.
pub proof fn lemma_first_index_of(s: Seq<char>, c: char, k: int)
    requires
        0 <= k < s.len(),
        s[k] == c,
        forall|j: int| 0 <= j < k ==> s[j] != c,
    ensures
        first_index_of(s, c) == Some(k),
{
    let w = choose|i: int| 0 <= i < s.len() && s[i] == c && forall|j: int| 0 <= j < i ==> s[j] != c;
    assert(0 <= k < s.len() && s[k] == c && forall|j: int| 0 <= j < k ==> s[j] != c);
    if w < k {
        assert(s[w] != c);
    }
    if k < w {
        assert(s[k] != c);
    }
}

/// Reading the text of an identifier gives the identifier back.
pub proof fn lemma_event_id_text_roundtrip(id: EventId)
    ensures
        parse_event_id(event_id_text(id)) == Ok::<EventId, ParseEventIdReason>(id),
{
    let t = event_id_text(id);
    let e = decimal(id.epoch as nat);
    let q = decimal(id.seq as nat);
    lemma_decimal_digits(id.epoch as nat);
    lemma_decimal_digits(id.seq as nat);
    let k = e.len() as int;
    assert(t[k] == '.');
    assert forall|j: int| 0 <= j < k implies t[j] != '.' by {
        assert(t[j] == e[j]);
    }
    lemma_first_index_of(t, '.', k);
    assert(t.subrange(0, k) =~= e);
    assert(t.subrange(k + 1, t.len() as int) =~= q);
    lemma_parse_decimal(id.epoch as nat);
    lemma_parse_decimal(id.seq as nat);
}

} // verus!
