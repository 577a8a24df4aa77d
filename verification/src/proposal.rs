use crate::kernel_core::event::EventPayload;
use crate::text::append_utf8;
use vstd::prelude::*;
use vstd::utf8::encode_utf8;

verus! {

/// Whether `p` is a custom payload of type `event_type` whose data is the UTF-8
/// encoding of `text`.
pub open spec fn is_custom_payload(p: EventPayload, event_type: Seq<char>, text: Seq<char>) -> bool {
    match p {
        EventPayload::Custom { event_type: t, data } => t@ == event_type && data@ == encode_utf8(text),
        _ => false,
    }
}

/// Texts joined by a separator.
pub open spec fn join_with(parts: Seq<Seq<char>>, sep: Seq<char>) -> Seq<char>
    decreases parts.len(),
{
    if parts.len() == 0 {
        Seq::empty()
    } else if parts.len() == 1 {
        parts[0]
    } else {
        join_with(parts.drop_last(), sep) + sep + parts.last()
    }
}

/// A custom payload of type `event_type` carrying the UTF-8 bytes of `text`.
pub fn custom_payload(event_type: &str, text: &String) -> (r: EventPayload)
    ensures
        is_custom_payload(r, event_type@, text@),
{
    let mut data: Vec<u8> = Vec::new();
    append_utf8(&mut data, text.as_str());
    proof {
        assert(data@ =~= encode_utf8(text@));
    }
    EventPayload::Custom { event_type: String::from_str(event_type), data }
}

/// Two texts joined by `|`.
pub fn pipe2(a: &str, b: &str) -> (r: String)
    ensures
        r@ == a@ + "|"@ + b@,
{
    let mut r = String::from_str(a);
    r.append("|");
    r.append(b);
    r
}

/// Three texts joined by `|`.
pub fn pipe3(a: &str, b: &str, c: &str) -> (r: String)
    ensures
        r@ == a@ + "|"@ + b@ + "|"@ + c@,
{
    let mut r = pipe2(a, b);
    r.append("|");
    r.append(c);
    r
}

/// Texts joined by a separator.
pub fn join_texts(parts: &Vec<String>, sep: &str) -> (r: String)
    ensures
        r@ == join_with(parts@.map_values(|p: String| p@), sep@),
{
    let mut r = String::new();
    let mut i: usize = 0;
    while i < parts.len()
        invariant
            i <= parts@.len(),
            r@ == join_with(parts@.take(i as int).map_values(|p: String| p@), sep@),
        decreases parts@.len() - i,
    {
        proof {
            let v = parts@.take(i + 1).map_values(|p: String| p@);
            assert(v.drop_last() =~= parts@.take(i as int).map_values(|p: String| p@));
            if i == 0 {
                assert(parts@.take(i as int).map_values(|p: String| p@) =~= Seq::<Seq<char>>::empty());
            }
        }
        if i > 0 {
            r.append(sep);
        }
        r.append(parts[i].as_str());
        i = i + 1;
    }
    proof {
        assert(parts@.take(parts@.len() as int) =~= parts@);
    }
    r
}

} // verus!
