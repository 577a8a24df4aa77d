use crate::proposal::join_with;
use crate::words::{contains_text, has_infix, last_word, last_word_of, replace_all, replace_text};
use vstd::prelude::*;

verus! {

/// One message of a conversation.
#[derive(Debug)]
pub struct ContextMessage {
    pub role: String,
    pub content: String,
    pub timestamp: u64,
}

impl View for ContextMessage {
    type V = (Seq<char>, Seq<char>, u64);

    open spec fn view(&self) -> (Seq<char>, Seq<char>, u64) {
        (self.role@, self.content@, self.timestamp)
    }
}

/// The latest messages of a conversation, at most `max_size` of them.
#[derive(Debug)]
pub struct ContextWindow {
    messages: Vec<ContextMessage>,
    max_size: usize,
}

/// The words that refer back to what was said before.
pub open spec fn reference_words() -> Seq<Seq<char>> {
    seq!["هذا"@, "ذلك"@, "هو"@, "هي"@, "هؤلاء"@]
}

/// The text of the most recent message other than `text` itself, if any: a
/// message does not refer to itself.
pub open spec fn antecedent(messages: Seq<(Seq<char>, Seq<char>, u64)>, text: Seq<char>) -> Option<Seq<char>>
    decreases messages.len(),
{
    if messages.len() == 0 {
        None
    } else if messages.last().1 != text {
        Some(messages.last().1)
    } else {
        antecedent(messages.drop_last(), text)
    }
}

/// The text a reference points back to is the latest message whose content
/// differs from the text being resolved: every later message holds that very
/// text, and there is none when every message does. In particular, when the
/// latest message differs from the text, it is that message.
pub proof fn lemma_antecedent_is_latest_other(messages: Seq<(Seq<char>, Seq<char>, u64)>, text: Seq<char>)
    ensures
        match antecedent(messages, text) {
            Some(c) => c != text && exists|i: int|
                0 <= i < messages.len() && (#[trigger] messages[i]).1 == c && forall|j: int|
                    i < j < messages.len() ==> (#[trigger] messages[j]).1 == text,
            None => forall|j: int| 0 <= j < messages.len() ==> (#[trigger] messages[j]).1 == text,
        },
        messages.len() > 0 && messages.last().1 != text ==> antecedent(messages, text) == Some(
            messages.last().1,
        ),
    decreases messages.len(),
{
    if messages.len() > 0 {
        let n = messages.len() - 1;
        if messages.last().1 != text {
            assert(messages[n].1 == messages.last().1);
        } else {
            let init = messages.drop_last();
            lemma_antecedent_is_latest_other(init, text);
            match antecedent(init, text) {
                Some(c) => {
                    let i = choose|i: int|
                        0 <= i < init.len() && (#[trigger] init[i]).1 == c && forall|j: int|
                            i < j < init.len() ==> (#[trigger] init[j]).1 == text;
                    assert(messages[i] == init[i]);
                    assert forall|j: int| i < j < messages.len() implies (#[trigger] messages[j]).1 == text by {
                        if j < n {
                            assert(messages[j] == init[j]);
                        }
                    }
                },
                None => {
                    assert forall|j: int| 0 <= j < messages.len() implies (#[trigger] messages[j]).1 == text by {
                        if j < n {
                            assert(messages[j] == init[j]);
                        }
                    }
                },
            }
        }
    }
}

/// `text` with each reference word in `refs`, in order, replaced by `(word)`
/// wherever it occurs; nothing is replaced without a word.
pub open spec fn substitute(text: Seq<char>, word: Option<Seq<char>>, refs: Seq<Seq<char>>) -> Seq<char>
    decreases refs.len(),
{
    if refs.len() == 0 {
        text
    } else {
        substitute_step(substitute(text, word, refs.drop_last()), refs.last(), word)
    }
}

/// Replaces `r` by `(word)` throughout `t`, when there is a word and `r` occurs.
pub open spec fn substitute_step(t: Seq<char>, r: Seq<char>, word: Option<Seq<char>>) -> Seq<char> {
    match word {
        Some(w) => if has_infix(t, r) {
            replace_all(t, r, "("@ + w + ")"@)
        } else {
            t
        },
        None => t,
    }
}

/// The messages kept after adding `m` to `messages` in a window of `max_size`:
/// the oldest one leaves when the window overflows.
pub open spec fn after_add(
    messages: Seq<(Seq<char>, Seq<char>, u64)>,
    m: (Seq<char>, Seq<char>, u64),
    max_size: nat,
) -> Seq<(Seq<char>, Seq<char>, u64)> {
    let pushed = messages.push(m);
    if pushed.len() > max_size {
        pushed.drop_first()
    } else {
        pushed
    }
}

/// The prompt line of a message: `role: content`.
pub open spec fn prompt_line(m: (Seq<char>, Seq<char>, u64)) -> Seq<char> {
    m.0 + ": "@ + m.1
}

impl ContextWindow {
    #[verifier::type_invariant]
    spec fn bounded(self) -> bool {
        self.messages@.len() <= self.max_size
    }

    /// The messages, oldest first.
    pub closed spec fn history(&self) -> Seq<(Seq<char>, Seq<char>, u64)> {
        self.messages@.map_values(|m: ContextMessage| m@)
    }

    /// The most messages the window keeps.
    pub closed spec fn capacity(&self) -> nat {
        self.max_size as nat
    }

    /// An empty window that keeps at most `max_size` messages.
    pub fn new(max_size: usize) -> (r: Self)
        ensures
            r.history() == Seq::<(Seq<char>, Seq<char>, u64)>::empty(),
            r.capacity() == max_size,
    {
        let r = ContextWindow { messages: Vec::new(), max_size };
        proof {
            assert(r.history() =~= Seq::<(Seq<char>, Seq<char>, u64)>::empty());
        }
        r
    }

    /// Adds a message; the oldest message leaves when the window overflows.
    pub fn add(&mut self, role: &str, content: &str, tick: u64)
        ensures
            final(self).history() == after_add(old(self).history(), (role@, content@, tick), old(self).capacity()),
            final(self).capacity() == old(self).capacity(),
            final(self).history().len() <= final(self).capacity(),
    {
        proof {
            use_type_invariant(&*self);
        }
        let ghost before = self.messages@;
        let mut msgs: Vec<ContextMessage> = Vec::new();
        std::mem::swap(&mut msgs, &mut self.messages);
        let m = ContextMessage { role: String::from_str(role), content: String::from_str(content), timestamp: tick };
        let ghost mv = m@;
        msgs.push(m);
        proof {
            assert(msgs@.map_values(|m: ContextMessage| m@) =~= before.map_values(|m: ContextMessage| m@).push(mv));
        }
        if msgs.len() > self.max_size {
            let ghost pushed = msgs@;
            msgs.remove(0);
            proof {
                assert(msgs@.map_values(|m: ContextMessage| m@) =~= pushed.map_values(|m: ContextMessage| m@).drop_first());
            }
        }
        self.messages = msgs;
    }

    /// The last `n` messages (all of them if there are fewer), oldest first.
    pub fn recent(&self, n: usize) -> (r: Vec<&ContextMessage>)
        ensures
            r@.map_values(|m: &ContextMessage| m@) == self.history().subrange(
                self.history().len() - (if n < self.history().len() { n as int } else { self.history().len() as int }),
                self.history().len() as int,
            ),
    {
        let len = self.messages.len();
        let start = if n < len { len - n } else { 0 };
        let mut r: Vec<&ContextMessage> = Vec::new();
        let mut i: usize = start;
        while i < len
            invariant
                start <= i <= len,
                len == self.messages@.len(),
                r@.map_values(|m: &ContextMessage| m@) == self.history().subrange(start as int, i as int),
            decreases len - i,
        {
            let ghost before = r@;
            let m = &self.messages[i];
            r.push(m);
            proof {
                assert(r@ =~= before.push(m));
                assert(r@.map_values(|m: &ContextMessage| m@) =~= before.map_values(|m: &ContextMessage| m@).push(m@));
                assert(self.history()[i as int] == m@);
                assert(r@.map_values(|m: &ContextMessage| m@) =~= self.history().subrange(start as int, i + 1));
            }
            i = i + 1;
        }
        r
    }

    /// Replaces each reference word of `text` by `(word)`, where `word` is the
    /// last word of the most recent message other than `text` itself.
    pub fn resolve_reference(&self, text: &str) -> (r: String)
        ensures
            r@ == substitute(
                text@,
                match antecedent(self.history(), text@) {
                    Some(c) => last_word(c),
                    None => None,
                },
                reference_words(),
            ),
            self.history().len() > 0 && self.history().last().1 != text@ ==> r@ == substitute(
                text@,
                last_word(self.history().last().1),
                reference_words(),
            ),
    {
        proof {
            lemma_antecedent_is_latest_other(self.history(), text@);
        }
        let mut k: usize = self.messages.len();
        let target = String::from_str(text);
        proof {
            assert(self.history().take(k as int) =~= self.history());
        }
        while k > 0 && self.messages[k - 1].content == target
            invariant
                k <= self.messages@.len(),
                target@ == text@,
                antecedent(self.history(), text@) == antecedent(self.history().take(k as int), text@),
            decreases k,
        {
            proof {
                assert(self.history().take(k as int).drop_last() =~= self.history().take(k - 1));
            }
            k = k - 1;
        }
        let word: Option<String> = if k == 0 {
            None
        } else {
            proof {
                assert(self.history().take(k as int).last() == self.messages@[k - 1]@);
            }
            last_word_of(self.messages[k - 1].content.as_str())
        };
        let ghost w = match &word {
            Some(s) => Some(s@),
            None => None::<Seq<char>>,
        };
        let ghost refs = reference_words();
        proof {
            reveal_strlit("هذا");
            reveal_strlit("ذلك");
            reveal_strlit("هو");
            reveal_strlit("هي");
            reveal_strlit("هؤلاء");
            assert(refs.take(0) =~= Seq::<Seq<char>>::empty());
            assert(refs.take(1).drop_last() =~= refs.take(0));
            assert(refs.take(2).drop_last() =~= refs.take(1));
            assert(refs.take(3).drop_last() =~= refs.take(2));
            assert(refs.take(4).drop_last() =~= refs.take(3));
            assert(refs.take(5) =~= refs);
            assert(refs.take(5).drop_last() =~= refs.take(4));
            assert(refs.take(1).last() == "هذا"@);
            assert(refs.take(2).last() == "ذلك"@);
            assert(refs.take(3).last() == "هو"@);
            assert(refs.take(4).last() == "هي"@);
            assert(refs.take(5).last() == "هؤلاء"@);
            assert(substitute(text@, w, refs.take(0)) == text@);
        }
        let mut resolved = target;
        resolved = substitute_word(resolved, "هذا", &word);
        assert(resolved@ == substitute(text@, w, refs.take(1)));
        resolved = substitute_word(resolved, "ذلك", &word);
        assert(resolved@ == substitute(text@, w, refs.take(2)));
        resolved = substitute_word(resolved, "هو", &word);
        assert(resolved@ == substitute(text@, w, refs.take(3)));
        resolved = substitute_word(resolved, "هي", &word);
        assert(resolved@ == substitute(text@, w, refs.take(4)));
        resolved = substitute_word(resolved, "هؤلاء", &word);
        assert(resolved@ == substitute(text@, w, refs.take(5)));
        resolved
    }

    /// The conversation as a prompt: one `role: content` line per message.
    pub fn as_prompt(&self) -> (r: String)
        ensures
            r@ == join_with(self.history().map_values(|m: (Seq<char>, Seq<char>, u64)| prompt_line(m)), "\n"@),
    {
        let mut lines: Vec<String> = Vec::new();
        let mut i: usize = 0;
        while i < self.messages.len()
            invariant
                i <= self.messages@.len(),
                lines@.map_values(|s: String| s@) == self.history().take(i as int).map_values(
                    |m: (Seq<char>, Seq<char>, u64)| prompt_line(m),
                ),
            decreases self.messages@.len() - i,
        {
            let mut line = self.messages[i].role.clone();
            line.append(": ");
            line.append(self.messages[i].content.as_str());
            let ghost before = lines@;
            let ghost lv = line@;
            lines.push(line);
            proof {
                assert(self.history().take(i + 1) =~= self.history().take(i as int).push(self.messages@[i as int]@));
                assert(lines@.map_values(|s: String| s@) =~= before.map_values(|s: String| s@).push(lv));
            }
            i = i + 1;
        }
        proof {
            assert(self.history().take(self.messages@.len() as int) =~= self.history());
        }
        crate::proposal::join_texts(&lines, "\n")
    }
}

impl Clone for ContextMessage {
    fn clone(&self) -> (r: Self)
        ensures
            r@ == self@,
    {
        ContextMessage { role: self.role.clone(), content: self.content.clone(), timestamp: self.timestamp }
    }
}

impl Clone for ContextWindow {
    fn clone(&self) -> (r: Self)
        ensures
            r.history() == self.history(),
            r.capacity() == self.capacity(),
    {
        proof {
            use_type_invariant(self);
        }
        let messages = self.messages.clone();
        proof {
            assert forall|i: int| 0 <= i < messages@.len() implies messages@[i]@ == self.messages@[i]@ by {
                assert(cloned::<ContextMessage>(self.messages@[i], messages@[i]));
            }
            assert(messages@.map_values(|m: ContextMessage| m@) =~= self.messages@.map_values(
                |m: ContextMessage| m@,
            ));
        }
        ContextWindow { messages, max_size: self.max_size }
    }
}

/// One substitution step: replaces `r` by `(word)` in `text` when there is a
/// word and `r` occurs.
fn substitute_word(text: String, r: &str, word: &Option<String>) -> (out: String)
    requires
        r@.len() > 0,
    ensures
        out@ == substitute_step(
            text@,
            r@,
            match word {
                Some(s) => Some(s@),
                None => None,
            },
        ),
{
    match word {
        Some(w) => {
            if contains_text(text.as_str(), r) {
                let mut rep = String::from_str("(");
                rep.append(w.as_str());
                rep.append(")");
                replace_text(text.as_str(), r, rep.as_str())
            } else {
                text
            }
        },
        None => text,
    }
}

} // verus!
