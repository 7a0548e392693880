use vstd::prelude::*;
use crate::text::{chars_of, push_char};

verus! {

pub open spec fn is_alnum(c: char) -> bool {
    ('a' <= c && c <= 'z') || ('A' <= c && c <= 'Z') || ('0' <= c && c <= '9')
}

pub open spec fn to_lower(c: char) -> char {
    if 'A' <= c && c <= 'Z' {
        ((c as u32) + 32) as char
    } else {
        c
    }
}

/// The words of `s` (maximal runs of ASCII letters and digits), lower-cased
/// and joined by single hyphens; every other character only separates words.
pub open spec fn slug(s: Seq<char>) -> Seq<char>
    decreases s.len(),
{
    if s.len() == 0 {
        seq![]
    } else {
        let p = s.drop_last();
        let c = s.last();
        if !is_alnum(c) {
            slug(p)
        } else if p.len() > 0 && !is_alnum(p.last()) && slug(p).len() > 0 {
            slug(p) + seq!['-', to_lower(c)]
        } else {
            slug(p).push(to_lower(c))
        }
    }
}

/// The name used when a message holds no letter or digit.
pub open spec fn fallback_name() -> Seq<char> {
    seq!['n', 'e', 'w']
}

/// The branch name derived from a message.
pub open spec fn branch_name(s: Seq<char>) -> Seq<char> {
    if slug(s).len() == 0 {
        fallback_name()
    } else {
        slug(s)
    }
}

pub open spec fn is_name_char(c: char) -> bool {
    ('a' <= c && c <= 'z') || ('0' <= c && c <= '9')
}

/// `t` matches `[a-z0-9]+(-[a-z0-9]+)*`: lower-case letters, digits and
/// single hyphens, neither first nor last.
pub open spec fn is_branch_name(t: Seq<char>) -> bool {
    &&& t.len() > 0
    &&& forall|i: int| 0 <= i < t.len() ==> is_name_char(#[trigger] t[i]) || t[i] == '-'
    &&& t[0] != '-'
    &&& t.last() != '-'
    &&& forall|i: int| 0 <= i < t.len() - 1 ==> !(#[trigger] t[i] == '-' && t[i + 1] == '-')
}

/// Lower-case letters, digits and single hyphens, with no hyphen first.
pub open spec fn is_hyphenated(t: Seq<char>) -> bool {
    &&& forall|i: int| 0 <= i < t.len() ==> is_name_char(#[trigger] t[i]) || t[i] == '-'
    &&& t.len() > 0 ==> t[0] != '-'
    &&& forall|i: int| 0 <= i < t.len() - 1 ==> !(#[trigger] t[i] == '-' && t[i + 1] == '-')
}

proof fn lemma_lower_name_char(c: char)
    requires
        is_alnum(c),
    ensures
        is_name_char(to_lower(c)),
        is_alnum(to_lower(c)),
{
}

proof fn lemma_slug_hyphenated(s: Seq<char>)
    ensures
        is_hyphenated(slug(s)),
        slug(s).len() > 0 ==> slug(s).last() != '-',
    decreases s.len(),
{
    if s.len() > 0 {
        let p = s.drop_last();
        lemma_slug_hyphenated(p);
        if is_alnum(s.last()) {
            lemma_lower_name_char(s.last());
        }
        let t = slug(s);
        assert(is_hyphenated(t));
    }
}

/// Every derived branch name matches `[a-z0-9]+(-[a-z0-9]+)*` (the fallback
/// `new` included).
pub proof fn lemma_branch_name_shape(s: Seq<char>)
    ensures
        is_branch_name(branch_name(s)),
{
    lemma_slug_hyphenated(s);
    if slug(s).len() == 0 {
        let t = fallback_name();
        assert(t[0] == 'n' && t[1] == 'e' && t[2] == 'w');
        assert(is_branch_name(t));
    }
}

proof fn lemma_slug_of_hyphenated(t: Seq<char>)
    requires
        is_hyphenated(t),
    ensures
        slug(t) == (if t.len() > 0 && t.last() == '-' { t.drop_last() } else { t }),
    decreases t.len(),
{
    if t.len() > 0 {
        let p = t.drop_last();
        let c = t.last();
        assert(is_hyphenated(p)) by {
            assert forall|i: int| 0 <= i < p.len() - 1 implies !(#[trigger] p[i] == '-' && p[i + 1]
                == '-') by {
                assert(p[i] == t[i] && p[i + 1] == t[i + 1]);
            }
        }
        lemma_slug_of_hyphenated(p);
        assert(is_name_char(c) || c == '-');
        if c == '-' {
            assert(t.len() >= 2);
            assert(p.last() == t[t.len() - 2]);
            assert(!is_alnum(c));
        } else {
            assert(to_lower(c) == c);
            if p.len() > 0 && p.last() == '-' {
                assert(p.len() >= 2);
                assert(slug(p).len() > 0);
                assert(slug(p) + seq!['-', c] =~= t);
            } else {
                assert(slug(p).push(c) =~= t);
            }
        }
    }
}

/// Deriving a name from a derived name changes nothing: every branch name is
/// its own derivation.
pub proof fn lemma_branch_name_idempotent(s: Seq<char>)
    ensures
        branch_name(branch_name(s)) == branch_name(s),
{
    let t = branch_name(s);
    lemma_branch_name_shape(s);
    assert(is_hyphenated(t));
    lemma_slug_of_hyphenated(t);
}

fn is_alnum_char(c: char) -> (r: bool)
    ensures
        r == is_alnum(c),
{
    ('a' <= c && c <= 'z') || ('A' <= c && c <= 'Z') || ('0' <= c && c <= '9')
}

fn lower_char(c: char) -> (r: char)
    ensures
        r == to_lower(c),
{
    if 'A' <= c && c <= 'Z' {
        ((c as u8) + 32) as char
    } else {
        c
    }
}

/// Derives a branch name from a free-text message: ASCII letters are
/// lower-cased, every other non-alphanumeric character becomes a hyphen,
/// runs of hyphens collapse to one, hyphens at either end are dropped, and
/// an empty result becomes `new`.
pub fn branch_name_from_message(message: &str) -> (r: String)
    ensures
        r@ == branch_name(message@),
        is_branch_name(r@),
{
    let cs = chars_of(message);
    let mut out = String::new();
    let mut nonempty = false;
    let mut i: usize = 0;
    while i < cs.len()
        invariant
            i <= cs.len(),
            cs@ == message@,
            out@ == slug(cs@.subrange(0, i as int)),
            nonempty == (out@.len() > 0),
        decreases cs.len() - i,
    {
        let c = cs[i];
        proof {
            assert(cs@.subrange(0, i + 1).drop_last() =~= cs@.subrange(0, i as int));
        }
        if is_alnum_char(c) {
            if i > 0 && !is_alnum_char(cs[i - 1]) && nonempty {
                push_char(&mut out, '-');
            }
            push_char(&mut out, lower_char(c));
            nonempty = true;
        }
        i = i + 1;
    }
    assert(cs@.subrange(0, cs@.len() as int) =~= message@);
    proof {
        lemma_branch_name_shape(message@);
    }
    if nonempty {
        out
    } else {
        let r = String::from_str("new");
        proof {
            reveal_strlit("new");
            assert(r@ =~= fallback_name());
        }
        r
    }
}

} // verus!
