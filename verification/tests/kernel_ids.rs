use std::collections::hash_map::DefaultHasher;
use std::hash::{Hash, Hasher};

use sps::kernel_core::event_hash::{EventHash, ParseEventHashReason};
use sps::kernel_core::event_id::{EventId, ParseEventIdReason};
use sps::kernel_core::logical_time::{LogicalTime, ParseLogicalTimeReason};

#[test]
fn zero_is_genesis() {
    let z = EventId::zero();
    assert!(z.is_zero());
}

#[test]
fn next_increments() {
    let a = EventId::new(1, 5);
    assert_eq!(a.next(), EventId::new(1, 6));
}

#[test]
fn next_epoch() {
    let a = EventId::new(1, 999);
    assert_eq!(a.next_epoch(), EventId::new(2, 1));
}

#[test]
fn event_id_ordering() {
    assert!(EventId::new(1, 10) < EventId::new(2, 1));
}

#[test]
fn previous() {
    assert_eq!(EventId::new(1, 1).previous(), Some(EventId::new(1, 0)));
}

#[test]
fn is_next_of_chain() {
    let a = EventId::new(1, 10);
    let b = EventId::new(1, 11);
    let c = EventId::new(1, 12);
    assert!(b.is_next_of(&a));
    assert!(c.is_next_of(&b));
    assert!(!c.is_next_of(&a));
}

#[test]
fn is_next_of_epochs() {
    let last = EventId::new(1, 999);
    let first = EventId::new(2, 1);
    assert!(first.is_next_of(&last));
}

#[test]
fn display_and_parse() {
    let id = EventId::new(3, 42);
    let s = id.to_text();
    assert_eq!(s.parse::<EventId>().unwrap(), id);
}

#[test]
fn deterministic_hash() {
    let id = EventId::new(7, 13);
    let mut h1 = DefaultHasher::new();
    let mut h2 = DefaultHasher::new();
    id.hash(&mut h1);
    id.hash(&mut h2);
    assert_eq!(h1.finish(), h2.finish());
}

#[test]
fn event_id_edges() {
    assert_eq!(EventId::new(1, 0).previous(), None);
    assert_eq!(EventId::new(3, 42).to_text(), "3.42");
    assert!(!EventId::new(0, 1).is_next_of(&EventId::new(u64::MAX, 5)));
    assert!(!EventId::new(5, 0).is_next_of(&EventId::new(5, u64::MAX)));
    assert!(EventId::new(4, 9) > EventId::new(4, 8));
}

#[test]
fn event_id_parse_errors() {
    assert_eq!("".parse::<EventId>().unwrap_err().reason, ParseEventIdReason::EmptyInput);
    assert_eq!("12".parse::<EventId>().unwrap_err().reason, ParseEventIdReason::MissingDot);
    assert_eq!("x.1".parse::<EventId>().unwrap_err().reason, ParseEventIdReason::InvalidEpoch);
    assert_eq!("1.".parse::<EventId>().unwrap_err().reason, ParseEventIdReason::InvalidSeq);
    assert_eq!("1.2.3".parse::<EventId>().unwrap_err().reason, ParseEventIdReason::InvalidSeq);
    assert_eq!("1.2.3".parse::<EventId>().unwrap_err().input, "1.2.3");
    assert_eq!("+1.+2".parse::<EventId>().unwrap(), EventId::new(1, 2));
    assert_eq!(
        "18446744073709551616.0".parse::<EventId>().unwrap_err().reason,
        ParseEventIdReason::InvalidEpoch
    );
    assert_eq!(
        "18446744073709551615.0".parse::<EventId>().unwrap(),
        EventId::new(u64::MAX, 0)
    );
}

#[test]
fn zero() {
    assert!(LogicalTime::zero().is_zero());
}

#[test]
fn next_seq() {
    let t = LogicalTime::new(1, 5, 10);
    let n = t.next_sequence();
    assert_eq!(n.sequence, 11);
}

#[test]
fn logical_time_ordering() {
    assert!(LogicalTime::new(0, 0, 0) < LogicalTime::new(0, 0, 1));
}

#[test]
fn display_parse() {
    let t = LogicalTime::new(1, 2, 3);
    let s = t.to_text();
    assert_eq!(s.parse::<LogicalTime>().unwrap(), t);
}

#[test]
fn events_between() {
    let t0 = LogicalTime::new(1, 0, 0);
    let t1 = LogicalTime::new(1, 0, 5);
    assert_eq!(t0.events_between(&t1), Some(5));
    assert_eq!(t1.events_between(&t0), None);
}

#[test]
fn logical_time_edges() {
    assert_eq!(LogicalTime::new(1, 2, 3).to_text(), "1.2.3");
    assert_eq!(LogicalTime::new(1, 2, 3).next_tick(), LogicalTime::new(1, 3, 0));
    assert_eq!(LogicalTime::new(1, 2, 3).next_epoch(), LogicalTime::new(2, 0, 0));
    assert_eq!(LogicalTime::new(1, 0, 0).events_between(&LogicalTime::new(2, 0, 0)), None);
    // One tick counts u64::MAX steps; the difference wraps to 64 bits.
    assert_eq!(
        LogicalTime::new(1, 0, 0).events_between(&LogicalTime::new(1, 1, 0)),
        Some(u64::MAX)
    );
    assert_eq!(
        LogicalTime::new(1, 0, 0).events_between(&LogicalTime::new(1, 1, 1)),
        Some(0)
    );
    assert!(LogicalTime::new(0, 1, 0).precedes(&LogicalTime::new(0, 1, 1)));
    assert!(!LogicalTime::new(0, 1, 1).precedes(&LogicalTime::new(0, 1, 1)));
}

#[test]
fn logical_time_parse_errors() {
    assert_eq!("".parse::<LogicalTime>().unwrap_err().reason, ParseLogicalTimeReason::EmptyInput);
    assert_eq!("1.2".parse::<LogicalTime>().unwrap_err().reason, ParseLogicalTimeReason::MissingDot);
    assert_eq!("1.2.3.4".parse::<LogicalTime>().unwrap_err().reason, ParseLogicalTimeReason::MissingDot);
    assert_eq!("a.2.3".parse::<LogicalTime>().unwrap_err().reason, ParseLogicalTimeReason::InvalidEpoch);
    assert_eq!("1..3".parse::<LogicalTime>().unwrap_err().reason, ParseLogicalTimeReason::InvalidTick);
    assert_eq!("1.2.-3".parse::<LogicalTime>().unwrap_err().reason, ParseLogicalTimeReason::InvalidSequence);
}

#[test]
fn event_hash_text_roundtrip() {
    let mut bytes = [0u8; 32];
    for (i, b) in bytes.iter_mut().enumerate() {
        *b = (i as u8) * 7 + 1;
    }
    let h = EventHash::from_bytes(bytes);
    let text = h.to_text();
    assert_eq!(text.len(), 64);
    assert!(text.starts_with("01080f16"));
    assert_eq!(text.parse::<EventHash>().unwrap(), h);
    assert_eq!(h.as_bytes(), &bytes);
    assert!(!h.is_zero());
    assert!(EventHash::zero().is_zero());
}

#[test]
fn event_hash_parse_errors() {
    assert_eq!("abc".parse::<EventHash>().unwrap_err().reason, ParseEventHashReason::InvalidLength);
    let bad = "g".repeat(64);
    assert_eq!(bad.parse::<EventHash>().unwrap_err().reason, ParseEventHashReason::InvalidHex);
    // Upper case and a leading plus per pair are read as u8::from_str_radix reads them.
    let upper = "AB".repeat(32);
    assert_eq!(upper.parse::<EventHash>().unwrap(), EventHash::from_bytes([0xab; 32]));
    let plus = "+a".repeat(32);
    assert_eq!(plus.parse::<EventHash>().unwrap(), EventHash::from_bytes([0x0a; 32]));
}

#[test]
fn event_id_parse_error_text() {
    let e = "12".parse::<EventId>().unwrap_err();
    assert_eq!(e.to_text(), "Failed to parse EventId from '12': MissingDot");
    let e = "".parse::<EventId>().unwrap_err();
    assert_eq!(e.to_text(), "Failed to parse EventId from '': EmptyInput");
}

#[test]
fn event_hashes_order_by_their_bytes() {
    let mut a = [0u8; 32];
    let mut b = [0u8; 32];
    a[3] = 1;
    b[3] = 2;
    b[10] = 0;
    let ha = EventHash::from_bytes(a);
    let hb = EventHash::from_bytes(b);
    assert!(ha < hb);
    assert_eq!(ha.cmp(&hb), a.cmp(&b));
    assert_eq!(hb.partial_cmp(&ha), Some(std::cmp::Ordering::Greater));
    assert_eq!(ha.partial_cmp(&EventHash::from_bytes(a)), Some(std::cmp::Ordering::Equal));
    assert!(EventHash::zero() < ha);
    assert_eq!(EventHash::from_bytes([0u8; 32]), EventHash::zero());
    b[0] = 1;
    assert!(EventHash::from_bytes(b) > ha);
}
