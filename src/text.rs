use vstd::prelude::*;
use vstd::string::*;

verus! {

/// Unicode White_Space, as `char::is_whitespace` reads it: tab through
/// carriage return, space, next line, no-break space, ogham space mark, the
/// spaces from en quad to hair space, line and paragraph separators, narrow
/// no-break space, medium mathematical space and ideographic space.
pub open spec fn is_space(c: char) -> bool {
    ||| ('\u{9}' <= c && c <= '\u{D}')
    ||| c == ' '
    ||| c == '\u{85}'
    ||| c == '\u{A0}'
    ||| c == '\u{1680}'
    ||| ('\u{2000}' <= c && c <= '\u{200A}')
    ||| c == '\u{2028}'
    ||| c == '\u{2029}'
    ||| c == '\u{202F}'
    ||| c == '\u{205F}'
    ||| c == '\u{3000}'
}

pub fn is_space_char(c: char) -> (r: bool)
    ensures
        r == is_space(c),
{
    ('\u{9}' <= c && c <= '\u{D}') || c == ' ' || c == '\u{85}' || c == '\u{A0}' || c
        == '\u{1680}' || ('\u{2000}' <= c && c <= '\u{200A}') || c == '\u{2028}' || c
        == '\u{2029}' || c == '\u{202F}' || c == '\u{205F}' || c == '\u{3000}'
}

/// The characters of `s`, in order.
pub fn chars_of(s: &str) -> (r: Vec<char>)
    ensures
        r@ == s@,
{
    let n = s.unicode_len();
    let mut out: Vec<char> = Vec::new();
    let mut i: usize = 0;
    while i < n
        invariant
            n == s@.len(),
            i <= n,
            out@ == s@.subrange(0, i as int),
        decreases n - i,
    {
        out.push(s.get_char(i));
        i = i + 1;
    }
    assert(out@ =~= s@);
    out
}

/// The index of the first non-space character at or after `i`.
pub open spec fn skip_spaces(s: Seq<char>, i: int) -> int
    decreases s.len() - i,
{
    if 0 <= i < s.len() && is_space(s[i]) {
        skip_spaces(s, i + 1)
    } else {
        i
    }
}

pub(crate) fn skip_spaces_from(cs: &Vec<char>, i: usize) -> (r: usize)
    requires
        i <= cs.len(),
    ensures
        r == skip_spaces(cs@, i as int),
        i <= r <= cs.len(),
{
    let mut j = i;
    while j < cs.len() && is_space_char(cs[j])
        invariant
            i <= j <= cs.len(),
            skip_spaces(cs@, j as int) == skip_spaces(cs@, i as int),
        decreases cs.len() - j,
    {
        j = j + 1;
    }
    j
}

/// The end of `s` once trailing spaces down to index `lo` are dropped.
pub open spec fn trim_end(s: Seq<char>, lo: int, j: int) -> int
    decreases j - lo,
{
    if lo < j && is_space(s[j - 1]) {
        trim_end(s, lo, j - 1)
    } else {
        j
    }
}

/// `s` without leading and trailing whitespace.
pub open spec fn trimmed(s: Seq<char>) -> Seq<char> {
    let a = skip_spaces(s, 0);
    s.subrange(a, trim_end(s, a, s.len() as int))
}

/// `p` occurs in `t` as a contiguous run.
pub open spec fn contains(t: Seq<char>, p: Seq<char>) -> bool {
    exists|i: int| 0 <= i <= t.len() - p.len() && #[trigger] t.subrange(i, i + p.len()) == p
}

pub fn trim(s: &str) -> (r: String)
    ensures
        r@ == trimmed(s@),
{
    let cs = chars_of(s);
    let a = skip_spaces_from(&cs, 0);
    let mut b = cs.len();
    while a < b && is_space_char(cs[b - 1])
        invariant
            a <= b <= cs.len(),
            trim_end(cs@, a as int, b as int) == trim_end(cs@, a as int, cs@.len() as int),
        decreases b - a,
    {
        b = b - 1;
    }
    let mut out = String::new();
    let mut i = a;
    while i < b
        invariant
            a <= i <= b <= cs.len(),
            out@ == cs@.subrange(a as int, i as int),
        decreases b - i,
    {
        push_char(&mut out, cs[i]);
        assert(cs@.subrange(a as int, i + 1) =~= cs@.subrange(a as int, i as int).push(cs@[i as int]));
        i = i + 1;
    }
    out
}

fn occurs_at(t: &Vec<char>, p: &Vec<char>, i: usize) -> (r: bool)
    requires
        i + p.len() <= t.len(),
    ensures
        r == (t@.subrange(i as int, i + p.len()) == p@),
{
    let mut k: usize = 0;
    while k < p.len()
        invariant
            k <= p.len(),
            i + p.len() <= t.len(),
            forall|m: int| 0 <= m < k ==> t@[i + m] == p@[m],
        decreases p.len() - k,
    {
        if t[i + k] != p[k] {
            assert(t@.subrange(i as int, i + p.len())[k as int] != p@[k as int]);
            return false;
        }
        k = k + 1;
    }
    assert(t@.subrange(i as int, i + p.len()) =~= p@);
    true
}

/// Whether `pattern` occurs in `text`.
pub fn contains_str(text: &Vec<char>, pattern: &str) -> (r: bool)
    ensures
        r == contains(text@, pattern@),
{
    let p = chars_of(pattern);
    if p.len() == 0 {
        assert(text@.subrange(0, 0 + pattern@.len() as int) =~= pattern@);
        return true;
    }
    if p.len() > text.len() {
        return false;
    }
    let mut i: usize = 0;
    while i <= text.len() - p.len()
        invariant
            p@ == pattern@,
            0 < p.len() <= text.len(),
            i <= text.len() - p.len() + 1,
            forall|j: int| 0 <= j < i ==> #[trigger] text@.subrange(j, j + p.len()) != p@,
        decreases text.len() - p.len() + 1 - i,
    {
        if occurs_at(text, &p, i) {
            return true;
        }
        i = i + 1;
    }
    false
}

/// Relies on `String::push`: the character is appended at the end.
#[verifier::external_body]
pub(crate) fn push_char(s: &mut String, c: char)
    ensures
        final(s)@ == old(s)@.push(c),
{
    s.push(c)
}

} // verus!
