use sha2::Digest;
use sps::kernel_core::event::{payload_bytes, Event, EventPayload};
use sps::kernel_core::event_hash::EventHash;
use sps::kernel_core::event_id::EventId;
use sps::kernel_core::event_metadata::EventSource;
use sps::kernel_core::logical_time::LogicalTime;

#[test]
fn genesis_has_correct_zero_fields() {
    let g = Event::genesis();
    assert!(g.is_genesis());
    assert_eq!(g.id, EventId::zero());
    assert_eq!(g.logical_time, LogicalTime::zero());
    assert_eq!(g.parent_hash, EventHash::zero());
    assert!(g.verify_hash());
}

#[test]
fn new_after_follows_chain() {
    let g = Event::genesis();
    let e1 = Event::new_after(
        &g,
        EventPayload::Lifecycle {
            transition: "Boot".into(),
            from_state: "Offline".into(),
            to_state: "Running".into(),
        },
        EventSource::System,
        None,
        None,
    );

    assert!(e1.follows(&g));
    assert!(e1.verify_hash());
    assert_eq!(e1.id.epoch, 0);
    assert_eq!(e1.id.seq, 1);
}

#[test]
fn chain_of_three_events() {
    let g = Event::genesis();
    let e1 = Event::new_after(
        &g,
        EventPayload::Custom {
            event_type: "Test".into(),
            data: vec![1, 2, 3],
        },
        EventSource::Agent {
            agent_id: "a1".into(),
        },
        Some("corr-1".into()),
        Some("cause-0".into()),
    );
    let e2 = Event::new_after(
        &e1,
        EventPayload::Custom {
            event_type: "Test2".into(),
            data: vec![4, 5],
        },
        EventSource::User {
            user_id: Some("u1".into()),
        },
        None,
        None,
    );

    assert!(e1.follows(&g));
    assert!(e2.follows(&e1));
    assert!(e1.verify_hash());
    assert!(e2.verify_hash());

    // Tamper detection
    let mut tampered = e1.clone();
    match &mut tampered.payload {
        EventPayload::Custom { data, .. } => data.push(99),
        _ => unreachable!(),
    }
    assert!(!tampered.verify_hash());
}

#[test]
fn hash_chain_breaks_on_parent_mismatch() {
    let g = Event::genesis();
    let e1 = Event::new_after(&g, EventPayload::Genesis, EventSource::System, None, None);
    // Manually break parent
    let broken = Event {
        parent_hash: EventHash::zero(), // should be g.event_hash
        ..e1.clone()
    };
    assert!(!broken.follows(&g));
    assert!(!broken.verify_hash());
}

#[test]
fn payload_bytes_are_deterministic() {
    let p1 = EventPayload::Lifecycle {
        transition: "Boot".into(),
        from_state: "Off".into(),
        to_state: "On".into(),
    };
    let p2 = EventPayload::Lifecycle {
        transition: "Boot".into(),
        from_state: "Off".into(),
        to_state: "On".into(),
    };
    assert_eq!(payload_bytes(&p1), payload_bytes(&p2));

    let c1 = EventPayload::Custom {
        event_type: "X".into(),
        data: vec![1, 2],
    };
    let c2 = EventPayload::Custom {
        event_type: "X".into(),
        data: vec![1, 2],
    };
    assert_eq!(payload_bytes(&c1), payload_bytes(&c2));
}

#[test]
fn payload_bytes_layout() {
    let p = EventPayload::Lifecycle {
        transition: "Boot".into(),
        from_state: "Off".into(),
        to_state: "On".into(),
    };
    assert_eq!(payload_bytes(&p), b"1Boot\0Off\0On".to_vec());
    assert_eq!(payload_bytes(&EventPayload::Genesis), vec![b'0']);
    let c = EventPayload::Custom { event_type: "X".into(), data: vec![1, 2] };
    assert_eq!(payload_bytes(&c), vec![b'2', b'X', 0, 1, 2]);
    let f = EventPayload::Failure { component: "c".into(), class: "k".into(), message: "m".into() };
    assert_eq!(payload_bytes(&f), b"3c\0k\0m".to_vec());
}

#[test]
fn payload_kinds() {
    assert_eq!(EventPayload::Genesis.kind(), "Genesis");
    let c = EventPayload::Custom { event_type: "X".into(), data: vec![] };
    assert_eq!(c.kind(), "Custom");
}

#[test]
fn genesis_hash_is_sha256_of_its_parts() {
    // SHA-256 of the payload "0" and of the concatenated parts, computed independently.
    let g = Event::genesis();
    assert_eq!(
        g.event_hash.to_text(),
        sha256_hex(&[&[0u8; 32][..], b"0.0", b"0.0.0", &sha256_bytes(b"0")].concat())
    );
}

#[test]
fn source_texts() {
    assert_eq!(EventSource::User { user_id: None }.to_text(), "User(?)");
    assert_eq!(EventSource::User { user_id: Some("u".into()) }.to_text(), "User(u)");
    assert_eq!(EventSource::Agent { agent_id: "a".into() }.to_text(), "Agent(a)");
    assert_eq!(EventSource::System.to_text(), "System");
    assert_eq!(EventSource::Llm { model_id: "m".into() }.to_text(), "Llm(m)");
    assert_eq!(
        EventSource::CapabilityProvider { provider_id: "p".into() }.to_text(),
        "CapabilityProvider(p)"
    );
}

fn sha256_bytes(data: &[u8]) -> Vec<u8> {
    sha2::Sha256::digest(data).to_vec()
}

fn sha256_hex(data: &[u8]) -> String {
    sha256_bytes(data).iter().map(|b| format!("{:02x}", b)).collect()
}
