use crate::kernel_core::event_id::{first_index_of, lemma_first_index_of};
use crate::text::{
    append_decimal, chars_of, decimal, decimal_text, lemma_decimal_digits, lemma_parse_decimal,
    parse_u64, parse_u64_in,
};
use vstd::prelude::*;

verus! {

/// A deterministic timestamp: epoch, tick within the epoch, sequence within the tick.
#[derive(Debug, Clone, Copy, PartialEq, Eq, Structural, Ord, Hash)]
pub struct LogicalTime {
    pub epoch: u64,
    pub tick: u64,
    pub sequence: u64,
}

/// Whether `a` comes strictly before `b`, comparing epoch, then tick, then sequence.
pub open spec fn time_before(a: LogicalTime, b: LogicalTime) -> bool {
    a.epoch < b.epoch || (a.epoch == b.epoch && (a.tick < b.tick || (a.tick == b.tick
        && a.sequence < b.sequence)))
}

/// The text of a time: `epoch.tick.sequence` in decimal.
pub open spec fn logical_time_text(t: LogicalTime) -> Seq<char> {
    decimal(t.epoch as nat) + seq!['.'] + decimal(t.tick as nat) + seq!['.'] + decimal(
        t.sequence as nat,
    )
}

/// The position of a time within its epoch, as `events_between` measures it.
pub open spec fn time_offset(t: LogicalTime) -> int {
    t.tick * (u64::MAX as int) + t.sequence
}

/// How many times `c` occurs in `s`.
pub open spec fn count_char(s: Seq<char>, c: char) -> nat
    decreases s.len(),
{
    if s.len() == 0 {
        0
    } else {
        count_char(s.drop_last(), c) + (if s.last() == c {
            1nat
        } else {
            0nat
        })
    }
}

/// Why a text is not a logical time.
#[derive(Debug, Clone, Copy, PartialEq, Eq, Structural)]
pub enum ParseLogicalTimeReason {
    EmptyInput,
    MissingDot,
    InvalidEpoch,
    InvalidTick,
    InvalidSequence,
}

/// A text that could not be read as a logical time, with the reason.
#[derive(Debug, Clone, PartialEq, Eq)]
pub struct ParseLogicalTimeError {
    pub input: String,
    pub reason: ParseLogicalTimeReason,
}

/// What reading `s` as a logical time yields. The text must hold exactly two
/// dots; the three parts between them are read as `u64` in order.
pub open spec fn parse_logical_time(s: Seq<char>) -> Result<LogicalTime, ParseLogicalTimeReason> {
    if s.len() == 0 {
        Err(ParseLogicalTimeReason::EmptyInput)
    } else if count_char(s, '.') != 2 {
        Err(ParseLogicalTimeReason::MissingDot)
    } else {
        let k1 = first_index_of(s, '.').unwrap();
        let rest = s.subrange(k1 + 1, s.len() as int);
        let k2 = k1 + 1 + first_index_of(rest, '.').unwrap();
        match parse_u64(s.subrange(0, k1)) {
            None => Err(ParseLogicalTimeReason::InvalidEpoch),
            Some(epoch) => match parse_u64(s.subrange(k1 + 1, k2)) {
                None => Err(ParseLogicalTimeReason::InvalidTick),
                Some(tick) => match parse_u64(s.subrange(k2 + 1, s.len() as int)) {
                    None => Err(ParseLogicalTimeReason::InvalidSequence),
                    Some(sequence) => Ok(LogicalTime { epoch, tick, sequence }),
                },
            },
        }
    }
}

/// Counting in a prefix one character longer adds that character.
proof fn lemma_count_char_step(s: Seq<char>, c: char, i: int)
    requires
        0 <= i < s.len(),
    ensures
        count_char(s.subrange(0, i + 1), c) == count_char(s.subrange(0, i), c) + (if s[i] == c {
            1nat
        } else {
            0nat
        }),
{
    assert(s.subrange(0, i + 1).drop_last() =~= s.subrange(0, i));
}

/// Counting over a concatenation adds the counts.
pub proof fn lemma_count_char_concat(a: Seq<char>, b: Seq<char>, c: char)
    ensures
        count_char(a + b, c) == count_char(a, c) + count_char(b, c),
    decreases b.len(),
{
    if b.len() == 0 {
        assert(a + b =~= a);
    } else {
        lemma_count_char_concat(a, b.drop_last(), c);
        assert((a + b).drop_last() =~= a + b.drop_last());
    }
}

/// A string without `c` counts none of it.
pub proof fn lemma_count_char_none(s: Seq<char>, c: char)
    requires
        forall|i: int| 0 <= i < s.len() ==> s[i] != c,
    ensures
        count_char(s, c) == 0,
    decreases s.len(),
{
    if s.len() > 0 {
        lemma_count_char_none(s.drop_last(), c);
    }
}

/// Counts the dots of `cs` and finds the first two of them.
fn dot_positions(cs: &[char]) -> (r: (usize, usize, usize))
    ensures
        r.0 == count_char(cs@, '.'),
        r.0 >= 1 ==> r.1 < cs@.len() && cs@[r.1 as int] == '.' && forall|j: int|
            0 <= j < r.1 ==> cs@[j] != '.',
        r.0 >= 2 ==> r.1 < r.2 < cs@.len() && cs@[r.2 as int] == '.' && forall|j: int|
            r.1 < j < r.2 ==> cs@[j] != '.',
{
    let n = cs.len();
    let mut count: usize = 0;
    let mut k1: usize = 0;
    let mut k2: usize = 0;
    let mut i: usize = 0;
    while i < n
        invariant
            n == cs@.len(),
            i <= n,
            count <= i,
            count == count_char(cs@.subrange(0, i as int), '.'),
            count >= 1 ==> k1 < i && cs@[k1 as int] == '.' && forall|j: int| 0 <= j < k1 ==> cs@[j] != '.',
            count == 0 ==> forall|j: int| 0 <= j < i ==> cs@[j] != '.',
            count >= 2 ==> k1 < k2 < i && cs@[k2 as int] == '.' && forall|j: int| k1 < j < k2 ==> cs@[j] != '.',
            count == 1 ==> forall|j: int| k1 < j < i ==> cs@[j] != '.',
        decreases n - i,
    {
        proof {
            lemma_count_char_step(cs@, '.', i as int);
        }
        if cs[i] == '.' {
            if count == 0 {
                k1 = i;
            } else if count == 1 {
                k2 = i;
            }
            count = count + 1;
        }
        i = i + 1;
    }
    proof {
        assert(cs@.subrange(0, n as int) =~= cs@);
    }
    (count, k1, k2)
}

impl LogicalTime {
    /// The time of the genesis event, `0.0.0`.
    pub fn zero() -> (r: Self)
        ensures
            r == (LogicalTime { epoch: 0, tick: 0, sequence: 0 }),
    {
        LogicalTime { epoch: 0, tick: 0, sequence: 0 }
    }

    pub fn new(epoch: u64, tick: u64, sequence: u64) -> (r: Self)
        ensures
            r == (LogicalTime { epoch, tick, sequence }),
    {
        LogicalTime { epoch, tick, sequence }
    }

    /// The next sequence number within the same tick.
    pub fn next_sequence(&self) -> (r: Self)
        requires
            self.sequence < u64::MAX,
        ensures
            r == (LogicalTime {
                epoch: self.epoch,
                tick: self.tick,
                sequence: (self.sequence + 1) as u64,
            }),
    {
        LogicalTime { epoch: self.epoch, tick: self.tick, sequence: self.sequence + 1 }
    }

    /// The start of the next tick.
    pub fn next_tick(&self) -> (r: Self)
        requires
            self.tick < u64::MAX,
        ensures
            r == (LogicalTime { epoch: self.epoch, tick: (self.tick + 1) as u64, sequence: 0 }),
    {
        LogicalTime { epoch: self.epoch, tick: self.tick + 1, sequence: 0 }
    }

    /// The start of the next epoch.
    pub fn next_epoch(&self) -> (r: Self)
        requires
            self.epoch < u64::MAX,
        ensures
            r == (LogicalTime { epoch: (self.epoch + 1) as u64, tick: 0, sequence: 0 }),
    {
        LogicalTime { epoch: self.epoch + 1, tick: 0, sequence: 0 }
    }

    pub fn is_zero(&self) -> (r: bool)
        ensures
            r == (self.epoch == 0 && self.tick == 0 && self.sequence == 0),
    {
        self.epoch == 0 && self.tick == 0 && self.sequence == 0
    }

    /// Whether this time comes strictly before `other`.
    pub fn precedes(&self, other: &LogicalTime) -> (r: bool)
        ensures
            r == time_before(*self, *other),
    {
        self.epoch < other.epoch || (self.epoch == other.epoch && (self.tick < other.tick || (
        self.tick == other.tick && self.sequence < other.sequence)))
    }

    /// The distance from this time to `other` within one epoch, where a tick
    /// counts `u64::MAX` sequence steps; the difference is truncated to 64 bits.
    /// `None` across epochs or when `other` lies before this time.
    pub fn events_between(&self, other: &LogicalTime) -> (r: Option<u64>)
        ensures
            r == (if self.epoch != other.epoch {
                None
            } else if time_offset(*other) >= time_offset(*self) {
                Some((time_offset(*other) - time_offset(*self)) as u64)
            } else {
                None
            }),
    {
        if self.epoch != other.epoch {
            return None;
        }
        let m: u128 = u64::MAX as u128;
        proof {
            assert(self.tick * m <= u64::MAX * u64::MAX) by (nonlinear_arith)
                requires
                    self.tick <= u64::MAX,
                    m == u64::MAX,
            ;
            assert(other.tick * m <= u64::MAX * u64::MAX) by (nonlinear_arith)
                requires
                    other.tick <= u64::MAX,
                    m == u64::MAX,
            ;
            assert(u64::MAX * u64::MAX + u64::MAX <= u128::MAX) by (nonlinear_arith);
        }
        let self_total = self.tick as u128 * m + self.sequence as u128;
        let other_total = other.tick as u128 * m + other.sequence as u128;
        if other_total >= self_total {
            Some((other_total - self_total) as u64)
        } else {
            None
        }
    }

    /// The text of this time, `epoch.tick.sequence`.
    pub fn to_text(&self) -> (s: String)
        ensures
            s@ == logical_time_text(*self),
    {
        let mut s = decimal_text(self.epoch);
        proof { reveal_strlit("."); }
        s.append(".");
        append_decimal(&mut s, self.tick);
        s.append(".");
        append_decimal(&mut s, self.sequence);
        s
    }

    /// Reads a time from its text.
    pub fn parse(s: &str) -> (r: Result<LogicalTime, ParseLogicalTimeError>)
        ensures
            match r {
                Ok(t) => parse_logical_time(s@) == Ok::<LogicalTime, ParseLogicalTimeReason>(t),
                Err(e) => parse_logical_time(s@) == Err::<LogicalTime, ParseLogicalTimeReason>(
                    e.reason,
                ) && e.input@ == s@,
            },
    {
        let cs = chars_of(s);
        let n = cs.len();
        if n == 0 {
            return Err(ParseLogicalTimeError { input: s.to_owned(), reason: ParseLogicalTimeReason::EmptyInput });
        }
        let (count, k1, k2) = dot_positions(cs.as_slice());
        if count != 2 {
            return Err(ParseLogicalTimeError { input: s.to_owned(), reason: ParseLogicalTimeReason::MissingDot });
        }
        proof {
            lemma_first_index_of(s@, '.', k1 as int);
            let rest = s@.subrange(k1 + 1, n as int);
            assert(rest[k2 - k1 - 1] == '.');
            assert forall|j: int| 0 <= j < k2 - k1 - 1 implies rest[j] != '.' by {
                assert(rest[j] == s@[k1 + 1 + j]);
            }
            lemma_first_index_of(rest, '.', k2 - k1 - 1);
        }
        let epoch = match parse_u64_in(cs.as_slice(), 0, k1) {
            Some(v) => v,
            None => {
                return Err(ParseLogicalTimeError { input: s.to_owned(), reason: ParseLogicalTimeReason::InvalidEpoch });
            },
        };
        let tick = match parse_u64_in(cs.as_slice(), k1 + 1, k2) {
            Some(v) => v,
            None => {
                return Err(ParseLogicalTimeError { input: s.to_owned(), reason: ParseLogicalTimeReason::InvalidTick });
            },
        };
        let sequence = match parse_u64_in(cs.as_slice(), k2 + 1, n) {
            Some(v) => v,
            None => {
                return Err(ParseLogicalTimeError { input: s.to_owned(), reason: ParseLogicalTimeReason::InvalidSequence });
            },
        };
        Ok(LogicalTime { epoch, tick, sequence })
    }
}

impl core::str::FromStr for LogicalTime {
    type Err = ParseLogicalTimeError;

    /// Reads a value from its text, as `LogicalTime::parse` does.
    fn from_str(s: &str) -> (r: Result<Self, Self::Err>)
        ensures
            match r {
                Ok(t) => parse_logical_time(s@) == Ok::<LogicalTime, ParseLogicalTimeReason>(t),
                Err(e) => parse_logical_time(s@) == Err::<LogicalTime, ParseLogicalTimeReason>(
                    e.reason,
                ) && e.input@ == s@,
            },
    {
        LogicalTime::parse(s)
    }
}

/// Reading the text of a logical time gives the time back.
pub proof fn lemma_logical_time_text_roundtrip(t: LogicalTime)
    ensures
        parse_logical_time(logical_time_text(t)) == Ok::<LogicalTime, ParseLogicalTimeReason>(t),
{
    let s = logical_time_text(t);
    let e = decimal(t.epoch as nat);
    let k = decimal(t.tick as nat);
    let q = decimal(t.sequence as nat);
    lemma_decimal_digits(t.epoch as nat);
    lemma_decimal_digits(t.tick as nat);
    lemma_decimal_digits(t.sequence as nat);
    let dot = seq!['.'];
    assert(s =~= e + dot + k + dot + q);
    assert forall|j: int| 0 <= j < e.len() implies e[j] != '.' by {}
    assert forall|j: int| 0 <= j < k.len() implies k[j] != '.' by {}
    assert forall|j: int| 0 <= j < q.len() implies q[j] != '.' by {}
    lemma_count_char_none(e, '.');
    lemma_count_char_none(k, '.');
    lemma_count_char_none(q, '.');
    assert(count_char(dot, '.') == 1) by {
        assert(dot.drop_last() =~= Seq::<char>::empty());
        assert(count_char(Seq::<char>::empty(), '.') == 0);
    }
    lemma_count_char_concat(e, dot, '.');
    lemma_count_char_concat(e + dot, k, '.');
    lemma_count_char_concat(e + dot + k, dot, '.');
    lemma_count_char_concat(e + dot + k + dot, q, '.');
    let k1 = e.len() as int;
    assert(s[k1] == '.');
    assert forall|j: int| 0 <= j < k1 implies s[j] != '.' by {
        assert(s[j] == e[j]);
    }
    lemma_first_index_of(s, '.', k1);
    let rest = s.subrange(k1 + 1, s.len() as int);
    assert(rest =~= k + dot + q);
    assert(rest[k.len() as int] == '.');
    assert forall|j: int| 0 <= j < k.len() implies rest[j] != '.' by {
        assert(rest[j] == k[j]);
    }
    lemma_first_index_of(rest, '.', k.len() as int);
    let k2 = k1 + 1 + k.len();
    assert(s.subrange(0, k1) =~= e);
    assert(s.subrange(k1 + 1, k2) =~= k);
    assert(s.subrange(k2 + 1, s.len() as int) =~= q);
    lemma_parse_decimal(t.epoch as nat);
    lemma_parse_decimal(t.tick as nat);
    lemma_parse_decimal(t.sequence as nat);
}

} // verus!
