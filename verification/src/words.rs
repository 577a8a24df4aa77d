use crate::text::chars_of;
use vstd::prelude::*;
use vstd::string::*;

verus! {

/// Whether `c` has the Unicode `White_Space` property (as `char::is_whitespace`).
pub open spec fn is_space(c: char) -> bool {
    let u = c as u32;
    (0x9 <= u && u <= 0xd) || u == 0x20 || u == 0x85 || u == 0xa0 || u == 0x1680 || (0x2000 <= u
        && u <= 0x200a) || u == 0x2028 || u == 0x2029 || u == 0x202f || u == 0x205f || u == 0x3000
}

/// Whether `c` is white space.
pub fn is_space_char(c: char) -> (r: bool)
    ensures
        r == is_space(c),
{
    let u = c as u32;
    (0x9 <= u && u <= 0xd) || u == 0x20 || u == 0x85 || u == 0xa0 || u == 0x1680 || (0x2000 <= u
        && u <= 0x200a) || u == 0x2028 || u == 0x2029 || u == 0x202f || u == 0x205f || u == 0x3000
}

/// Whether `pat` occurs in `s` at position `i`.
pub open spec fn occurs_at(s: Seq<char>, pat: Seq<char>, i: int) -> bool {
    0 <= i && i + pat.len() <= s.len() && s.subrange(i, i + pat.len()) == pat
}

/// Whether `pat` occurs somewhere in `s` (the empty text occurs everywhere).
pub open spec fn has_infix(s: Seq<char>, pat: Seq<char>) -> bool {
    exists|i: int| occurs_at(s, pat, i)
}

/// Whether `s` ends with `suffix`.
pub open spec fn has_suffix(s: Seq<char>, suffix: Seq<char>) -> bool {
    suffix.len() <= s.len() && s.subrange(s.len() - suffix.len(), s.len() as int) == suffix
}

/// `s` without its trailing white space.
pub open spec fn trim_end(s: Seq<char>) -> Seq<char>
    decreases s.len(),
{
    if s.len() > 0 && is_space(s.last()) {
        trim_end(s.drop_last())
    } else {
        s
    }
}

/// The run of non-space characters at the end of `s`.
pub open spec fn trailing_word(s: Seq<char>) -> Seq<char>
    decreases s.len(),
{
    if s.len() > 0 && !is_space(s.last()) {
        trailing_word(s.drop_last()).push(s.last())
    } else {
        Seq::empty()
    }
}

/// The last white-space separated word of `s`, if it has one.
pub open spec fn last_word(s: Seq<char>) -> Option<Seq<char>> {
    if trim_end(s).len() == 0 {
        None
    } else {
        Some(trailing_word(trim_end(s)))
    }
}

/// `s` with every occurrence of `pat` replaced by `rep`, scanning from the left
/// and skipping past each replaced occurrence.
pub open spec fn replace_all(s: Seq<char>, pat: Seq<char>, rep: Seq<char>) -> Seq<char>
    decreases s.len(),
{
    if pat.len() == 0 || s.len() < pat.len() {
        s
    } else if s.take(pat.len() as int) == pat {
        rep + replace_all(s.skip(pat.len() as int), pat, rep)
    } else {
        seq![s[0]] + replace_all(s.skip(1), pat, rep)
    }
}

/// Whether `pat` occurs in `cs` at position `i`.
fn matches_at(cs: &[char], pat: &[char], i: usize) -> (r: bool)
    ensures
        r == occurs_at(cs@, pat@, i as int),
{
    if pat.len() > cs.len() || i > cs.len() - pat.len() {
        return false;
    }
    let n = cs.len();
    let mut k: usize = 0;
    while k < pat.len()
        invariant
            n == cs@.len(),
            i + pat@.len() <= cs@.len(),
            k <= pat@.len(),
            forall|j: int| 0 <= j < k ==> cs@[i + j] == pat@[j],
        decreases pat@.len() - k,
    {
        if cs[i + k] != pat[k] {
            return false;
        }
        k = k + 1;
    }
    assert(cs@.subrange(i as int, i + pat@.len()) =~= pat@);
    true
}

/// Whether `pat` occurs in `s`.
pub fn contains_text(s: &str, pat: &str) -> (r: bool)
    ensures
        r == has_infix(s@, pat@),
{
    let cs = chars_of(s);
    let ps = chars_of(pat);
    if ps.len() > cs.len() {
        proof {
            assert forall|i: int| !occurs_at(s@, pat@, i) by {}
        }
        return false;
    }
    let n = cs.len();
    if ps.len() == 0 {
        proof {
            assert(pat@.len() == 0);
            assert(s@.subrange(0, 0) =~= pat@);
            assert(occurs_at(s@, pat@, 0));
        }
        return true;
    }
    let mut i: usize = 0;
    while i <= n - ps.len()
        invariant
            n == cs@.len(),
            i <= n - ps@.len() + 1,
            ps@.len() > 0,
            cs@ == s@,
            ps@ == pat@,
            ps@.len() <= cs@.len(),
            forall|j: int| 0 <= j < i ==> !occurs_at(s@, pat@, j),
        decreases cs@.len() - ps@.len() + 1 - i,
    {
        if matches_at(cs.as_slice(), ps.as_slice(), i) {
            return true;
        }
        i = i + 1;
    }
    proof {
        assert forall|j: int| !occurs_at(s@, pat@, j) by {
            if 0 <= j < i {
            }
        }
    }
    false
}

/// Whether `s` ends with `suffix`.
pub fn ends_with_text(s: &str, suffix: &str) -> (r: bool)
    ensures
        r == has_suffix(s@, suffix@),
{
    let cs = chars_of(s);
    let ps = chars_of(suffix);
    if ps.len() > cs.len() {
        return false;
    }
    let r = matches_at(cs.as_slice(), ps.as_slice(), cs.len() - ps.len());
    r
}

/// Trimming trailing white space of a prefix: position `e` ends the trimmed text.
proof fn lemma_trim_end_at(s: Seq<char>, e: int)
    requires
        0 <= e <= s.len(),
        forall|j: int| e <= j < s.len() ==> is_space(s[j]),
        e == 0 || !is_space(s[e - 1]),
    ensures
        trim_end(s) == s.take(e),
    decreases s.len(),
{
    if s.len() > e {
        lemma_trim_end_at(s.drop_last(), e);
        assert(s.drop_last().take(e) =~= s.take(e));
    } else {
        assert(s.take(e) =~= s);
    }
}

/// The trailing word of a text ending at `e` starts after its last space.
proof fn lemma_trailing_word_at(s: Seq<char>, b: int)
    requires
        0 <= b <= s.len(),
        forall|j: int| b <= j < s.len() ==> !is_space(s[j]),
        b == 0 || is_space(s[b - 1]),
    ensures
        trailing_word(s) == s.skip(b),
    decreases s.len(),
{
    if s.len() > b {
        lemma_trailing_word_at(s.drop_last(), b);
        assert(s.drop_last().skip(b).push(s.last()) =~= s.skip(b));
    } else {
        assert(s.skip(b) =~= Seq::<char>::empty());
    }
}

/// The last white-space separated word of `s`, if it has one.
pub fn last_word_of(s: &str) -> (r: Option<String>)
    ensures
        match r {
            Some(w) => last_word(s@) == Some(w@),
            None => last_word(s@) is None,
        },
{
    let cs = chars_of(s);
    let mut e: usize = cs.len();
    while e > 0 && is_space_char(cs[e - 1])
        invariant
            e <= cs@.len(),
            forall|j: int| e <= j < cs@.len() ==> is_space(cs@[j]),
        decreases e,
    {
        e = e - 1;
    }
    proof {
        lemma_trim_end_at(cs@, e as int);
    }
    if e == 0 {
        return None;
    }
    let mut b: usize = e;
    while b > 0 && !is_space_char(cs[b - 1])
        invariant
            b <= e <= cs@.len(),
            forall|j: int| b <= j < e ==> !is_space(cs@[j]),
        decreases b,
    {
        b = b - 1;
    }
    proof {
        let t = cs@.take(e as int);
        lemma_trailing_word_at(t, b as int);
        assert(t.skip(b as int) =~= s@.subrange(b as int, e as int));
    }
    Some(s.substring_char(b, e).to_owned())
}

/// `s` with every occurrence of `pat` replaced by `rep`, left to right.
pub fn replace_text(s: &str, pat: &str, rep: &str) -> (r: String)
    requires
        pat@.len() > 0,
    ensures
        r@ == replace_all(s@, pat@, rep@),
{
    let cs = chars_of(s);
    let ps = chars_of(pat);
    let n = cs.len();
    let m = ps.len();
    let mut out = String::new();
    let mut last: usize = 0;
    let mut i: usize = 0;
    proof {
        assert(cs@.skip(0) =~= cs@);
        assert(out@ + cs@.subrange(0, 0) =~= Seq::<char>::empty());
    }
    while i < n
        invariant
            cs@ == s@,
            ps@ == pat@,
            n == cs@.len(),
            m == ps@.len(),
            m > 0,
            last <= i <= n,
            out@ + cs@.subrange(last as int, i as int) + replace_all(cs@.skip(i as int), pat@, rep@)
                == replace_all(s@, pat@, rep@),
        decreases n - i,
    {
        let ghost rest = cs@.skip(i as int);
        if matches_at(cs.as_slice(), ps.as_slice(), i) {
            proof {
                assert(rest.take(m as int) =~= cs@.subrange(i as int, i + m));
                assert(rest.skip(m as int) =~= cs@.skip(i + m));
            }
            out.append(s.substring_char(last, i));
            out.append(rep);
            i = i + m;
            last = i;
            proof {
                assert(cs@.subrange(last as int, i as int) =~= Seq::<char>::empty());
            }
        } else {
            proof {
                if rest.len() >= m {
                    assert(rest.take(m as int) =~= cs@.subrange(i as int, i + m));
                }
                assert(rest.skip(1) =~= cs@.skip(i + 1));
                assert(cs@.subrange(last as int, i + 1) =~= cs@.subrange(last as int, i as int).push(cs@[i as int]));
            }
            i = i + 1;
        }
    }
    proof {
        assert(cs@.skip(n as int) =~= Seq::<char>::empty());
    }
    out.append(s.substring_char(last, n));
    proof {
        assert(out@ =~= replace_all(s@, pat@, rep@));
    }
    out
}

} // verus!
