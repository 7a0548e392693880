use vstd::prelude::*;
use crate::text::{chars_of, is_space, is_space_char, skip_spaces, skip_spaces_from};

verus! {

/// The index just past the run of non-space characters that starts at `i`.
pub open spec fn field_end(s: Seq<char>, i: int) -> int
    decreases s.len() - i,
{
    if 0 <= i < s.len() && !is_space(s[i]) {
        field_end(s, i + 1)
    } else {
        i
    }
}

pub open spec fn is_digit(c: char) -> bool {
    '0' <= c && c <= '9'
}

pub open spec fn digit_value(c: char) -> nat {
    ((c as u32) - ('0' as u32)) as nat
}

/// The decimal value of a string of digits.
pub open spec fn decimal_value(t: Seq<char>) -> nat
    decreases t.len(),
{
    if t.len() == 0 {
        0
    } else {
        decimal_value(t.drop_last()) * 10 + digit_value(t.last())
    }
}

/// A field read as a count: a non-empty run of decimal digits whose value
/// fits in a `u64`; anything else reads as zero.
pub open spec fn field_count(t: Seq<char>) -> u64 {
    if t.len() > 0 && (forall|i: int| 0 <= i < t.len() ==> is_digit(#[trigger] t[i]))
        && decimal_value(t) <= u64::MAX {
        decimal_value(t) as u64
    } else {
        0
    }
}

/// The first whitespace-separated field of `s` (empty if there is none).
pub open spec fn first_field(s: Seq<char>) -> Seq<char> {
    let a = skip_spaces(s, 0);
    s.subrange(a, field_end(s, a))
}

/// The second whitespace-separated field of `s` (empty if there is none).
pub open spec fn second_field(s: Seq<char>) -> Seq<char> {
    let a = skip_spaces(s, 0);
    let b = skip_spaces(s, field_end(s, a));
    s.subrange(b, field_end(s, b))
}

/// The (ahead, behind) pair read from the output of a left-right revision
/// count.
pub open spec fn ahead_behind(s: Seq<char>) -> (u64, u64) {
    (field_count(first_field(s)), field_count(second_field(s)))
}

fn field_end_from(cs: &Vec<char>, i: usize) -> (r: usize)
    requires
        i <= cs.len(),
    ensures
        r == field_end(cs@, i as int),
        i <= r <= cs.len(),
{
    let mut j = i;
    while j < cs.len() && !is_space_char(cs[j])
        invariant
            i <= j <= cs.len(),
            field_end(cs@, j as int) == field_end(cs@, i as int),
        decreases cs.len() - j,
    {
        j = j + 1;
    }
    j
}

fn count_of_field(cs: &Vec<char>, a: usize, b: usize) -> (r: u64)
    requires
        a <= b <= cs.len(),
    ensures
        r == field_count(cs@.subrange(a as int, b as int)),
{
    let ghost t = cs@.subrange(a as int, b as int);
    if a == b {
        return 0;
    }
    let mut acc: u64 = 0;
    let mut overflow = false;
    let mut j = a;
    while j < b
        invariant
            a <= j <= b <= cs.len(),
            t == cs@.subrange(a as int, b as int),
            forall|k: int| a <= k < j ==> is_digit(#[trigger] cs@[k]),
            !overflow ==> acc == decimal_value(cs@.subrange(a as int, j as int)),
            overflow ==> decimal_value(cs@.subrange(a as int, j as int)) > u64::MAX,
        decreases b - j,
    {
        let c = cs[j];
        if !('0' <= c && c <= '9') {
            assert(!is_digit(t[j - a]));
            return 0;
        }
        let d = ((c as u32) - ('0' as u32)) as u64;
        proof {
            assert(cs@.subrange(a as int, j + 1).drop_last() =~= cs@.subrange(a as int, j as int));
        }
        if !overflow {
            match acc.checked_mul(10) {
                Some(m) => match m.checked_add(d) {
                    Some(v) => {
                        acc = v;
                    },
                    None => {
                        overflow = true;
                    },
                },
                None => {
                    overflow = true;
                },
            }
        }
        j = j + 1;
    }
    assert(cs@.subrange(a as int, j as int) == t);
    assert forall|k: int| 0 <= k < t.len() implies is_digit(#[trigger] t[k]) by {
        assert(t[k] == cs@[a + k]);
    }
    if overflow {
        0
    } else {
        acc
    }
}

/// Reads the (ahead, behind) counts from the first two whitespace-separated
/// fields of `text`; a missing or non-numeric field counts as zero.
pub fn parse_ahead_behind(text: &str) -> (r: (u64, u64))
    ensures
        r == ahead_behind(text@),
{
    let cs = chars_of(text);
    let a = skip_spaces_from(&cs, 0);
    let e = field_end_from(&cs, a);
    let first = count_of_field(&cs, a, e);
    let b = skip_spaces_from(&cs, e);
    let f = field_end_from(&cs, b);
    let second = count_of_field(&cs, b, f);
    (first, second)
}

} // verus!
