use crate::words::{ends_with_text, has_suffix, last_word, last_word_of};
use vstd::prelude::*;

verus! {

/// The pattern found in the examples: when every later example ends with the
/// last word of the first one (or with the empty text, when it has none).
/// `None` for no examples.
pub open spec fn detected_pattern(examples: Seq<Seq<char>>) -> Option<Seq<char>> {
    if examples.len() == 0 {
        None
    } else {
        let suffix = match last_word(examples[0]) {
            Some(w) => w,
            None => Seq::empty(),
        };
        if forall|i: int| 1 <= i < examples.len() ==> has_suffix(#[trigger] examples[i], suffix) {
            Some("All examples end with '"@ + suffix + "'"@)
        } else {
            None
        }
    }
}

/// Whether the examples can be examined: there are none, or the first one has a
/// word (every text ends with the empty text, so a first example without words
/// would leave no word to name).
pub open spec fn pattern_defined(examples: Seq<Seq<char>>) -> bool {
    examples.len() == 0 || last_word(examples[0]) is Some
}

/// A pattern is detected exactly when every example after the first ends with
/// the last word `w` of the first one (the empty text when it has none); the
/// pattern then names `w`. No examples give no pattern.
pub proof fn lemma_pattern_means_shared_ending(examples: Seq<Seq<char>>)
    ensures
        examples.len() == 0 ==> detected_pattern(examples) is None,
        examples.len() > 0 ==> {
            let w = match last_word(examples[0]) {
                Some(w) => w,
                None => Seq::<char>::empty(),
            };
            &&& (detected_pattern(examples) is Some) == (forall|i: int|
                1 <= i < examples.len() ==> w.len() <= (#[trigger] examples[i]).len() && examples[i].subrange(
                    examples[i].len() - w.len(),
                    examples[i].len() as int,
                ) == w)
            &&& detected_pattern(examples) is Some ==> detected_pattern(examples) == Some(
                "All examples end with '"@ + w + "'"@,
            )
        },
{
}

/// Detects shared patterns among examples.
pub struct PatternDetector;

impl PatternDetector {
    /// When all examples end with the last word of the first, the pattern
    /// stating so.
    pub fn detect(examples: &[String]) -> (r: Option<String>)
        requires
            pattern_defined(examples@.map_values(|s: String| s@)),
        ensures
            match r {
                Some(p) => detected_pattern(examples@.map_values(|s: String| s@)) == Some(p@),
                None => detected_pattern(examples@.map_values(|s: String| s@)) is None,
            },
    {
        let ghost texts = examples@.map_values(|s: String| s@);
        if examples.len() == 0 {
            return None;
        }
        proof {
            assert(texts[0] == examples@[0]@);
        }
        let word = match last_word_of(examples[0].as_str()) {
            Some(w) => w,
            None => String::new(),
        };
        let mut i: usize = 1;
        while i < examples.len()
            invariant
                1 <= i <= examples@.len(),
                texts == examples@.map_values(|s: String| s@),
                forall|j: int| 1 <= j < i ==> has_suffix(#[trigger] texts[j], word@),
                word@ == match last_word(texts[0]) {
                    Some(w) => w,
                    None => Seq::<char>::empty(),
                },
            decreases examples@.len() - i,
        {
            proof {
                assert(texts[i as int] == examples@[i as int]@);
            }
            if !ends_with_text(examples[i].as_str(), word.as_str()) {
                proof {
                    assert(!has_suffix(texts[i as int], word@));
                }
                return None;
            }
            i = i + 1;
        }
        let mut p = String::from_str("All examples end with '");
        p.append(word.as_str());
        p.append("'");
        Some(p)
    }
}

} // verus!
