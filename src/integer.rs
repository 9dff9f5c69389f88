//! Decimal integer literals: what a base-10 signed integer looks like as
//! text, and a checked parser for it.
use vstd::prelude::*;

verus! {

pub open spec fn is_digit(c: char) -> bool {
    '0' <= c && c <= '9'
}

pub open spec fn digit_value(c: char) -> int {
    c as int - '0' as int
}

pub open spec fn all_digits(s: Seq<char>) -> bool {
    forall|i: int| 0 <= i < s.len() ==> is_digit(#[trigger] s[i])
}

/// The number that a run of decimal digits denotes, most significant first.
pub open spec fn digits_value(s: Seq<char>) -> int
    decreases s.len(),
{
    if s.len() == 0 {
        0
    } else {
        digits_value(s.drop_last()) * 10 + digit_value(s.last())
    }
}

/// The integer that `s` spells as `[+-]?[0-9]+`, or `None` when `s` has any
/// other shape (empty, a lone sign, a stray character, inner whitespace).
pub open spec fn literal_value(s: Seq<char>) -> Option<int> {
    if s.len() > 0 && (s[0] == '+' || s[0] == '-') {
        let rest = s.drop_first();
        if rest.len() > 0 && all_digits(rest) {
            if s[0] == '-' {
                Some(-digits_value(rest))
            } else {
                Some(digits_value(rest))
            }
        } else {
            None
        }
    } else if s.len() > 0 && all_digits(s) {
        Some(digits_value(s))
    } else {
        None
    }
}

/// The `i64` that `s` denotes: `None` for a malformed literal and for one
/// whose value lies outside the range of `i64`.
pub open spec fn parsed_i64(s: Seq<char>) -> Option<i64> {
    match literal_value(s) {
        Some(v) => if i64::MIN <= v <= i64::MAX {
            Some(v as i64)
        } else {
            None
        },
        None => None,
    }
}

/// The `i32` that `s` denotes, on the same terms as `parsed_i64`.
pub open spec fn parsed_i32(s: Seq<char>) -> Option<i32> {
    match literal_value(s) {
        Some(v) => if i32::MIN <= v <= i32::MAX {
            Some(v as i32)
        } else {
            None
        },
        None => None,
    }
}

proof fn lemma_digits_value_nonneg(s: Seq<char>)
    requires
        all_digits(s),
    ensures
        digits_value(s) >= 0,
    decreases s.len(),
{
    if s.len() > 0 {
        assert(all_digits(s.drop_last()));
        lemma_digits_value_nonneg(s.drop_last());
        assert(is_digit(s[s.len() - 1]));
    }
}

/// Appending digits never makes the value smaller.
proof fn lemma_digits_value_grows(s: Seq<char>, i: int, j: int)
    requires
        all_digits(s),
        0 <= i <= j <= s.len(),
    ensures
        digits_value(s.subrange(0, i)) <= digits_value(s.subrange(0, j)),
    decreases j - i,
{
    if i < j {
        lemma_digits_value_grows(s, i, j - 1);
        let p = s.subrange(0, j);
        assert(p.drop_last() =~= s.subrange(0, j - 1));
        assert(all_digits(s.subrange(0, j - 1)));
        lemma_digits_value_nonneg(s.subrange(0, j - 1));
        assert(is_digit(p.last()));
    }
}

/// Parses the characters `cs[from..to]` as a decimal `i64`, with no
/// whitespace allowed.
pub fn parse_i64_between(cs: &Vec<char>, from: usize, to: usize) -> (r: Option<i64>)
    requires
        from <= to <= cs.len(),
    ensures
        r == parsed_i64(cs@.subrange(from as int, to as int)),
{
    let ghost s = cs@.subrange(from as int, to as int);
    if from == to {
        return None;
    }
    let first = cs[from];
    let signed = first == '+' || first == '-';
    let negative = first == '-';
    let start: usize = if signed { from + 1 } else { from };
    if start == to {
        return None;
    }
    let ghost body = cs@.subrange(start as int, to as int);
    assert(s[0] == first);
    assert(signed ==> body =~= s.drop_first());
    assert(!signed ==> body =~= s);
    let mut acc: i64 = 0;
    let mut overflow = false;
    let mut i: usize = start;
    while i < to
        invariant
            from <= start <= i <= to <= cs.len(),
            start < to,
            body == cs@.subrange(start as int, to as int),
            s == cs@.subrange(from as int, to as int),
            s[0] == first,
            signed == (first == '+' || first == '-'),
            negative == (first == '-'),
            signed ==> body == s.drop_first(),
            !signed ==> body == s,
            all_digits(cs@.subrange(start as int, i as int)),
            !overflow && negative ==> acc == -digits_value(cs@.subrange(start as int, i as int)),
            !overflow && !negative ==> acc == digits_value(cs@.subrange(start as int, i as int)),
            overflow && negative ==> digits_value(cs@.subrange(start as int, i as int)) > 0x8000_0000_0000_0000,
            overflow && !negative ==> digits_value(cs@.subrange(start as int, i as int)) > 0x7fff_ffff_ffff_ffff,
        decreases to - i,
    {
        let c = cs[i];
        if !('0' <= c && c <= '9') {
            proof {
                assert(body[i - start] == c);
                assert(!is_digit(body[i - start]));
                assert(!all_digits(body));
            }
            return None;
        }
        let ghost before = cs@.subrange(start as int, i as int);
        let ghost after = cs@.subrange(start as int, i as int + 1);
        proof {
            assert(after.drop_last() =~= before);
            assert(after.last() == c);
            assert(all_digits(after));
            lemma_digits_value_nonneg(before);
        }
        let d: i64 = (c as u32 - '0' as u32) as i64;
        if !overflow {
            let next = if negative {
                match acc.checked_mul(10) {
                    Some(m) => m.checked_sub(d),
                    None => None,
                }
            } else {
                match acc.checked_mul(10) {
                    Some(m) => m.checked_add(d),
                    None => None,
                }
            };
            match next {
                Some(v) => {
                    acc = v;
                },
                None => {
                    overflow = true;
                },
            }
        }
        i = i + 1;
    }
    assert(cs@.subrange(start as int, i as int) =~= body);
    if overflow {
        None
    } else {
        Some(acc)
    }
}

/// Parses the characters `cs[from..to]` as a decimal `i32`, with no
/// whitespace allowed.
pub fn parse_i32_between(cs: &Vec<char>, from: usize, to: usize) -> (r: Option<i32>)
    requires
        from <= to <= cs.len(),
    ensures
        r == parsed_i32(cs@.subrange(from as int, to as int)),
{
    match parse_i64_between(cs, from, to) {
        Some(v) => if i32::MIN as i64 <= v && v <= i32::MAX as i64 {
            Some(v as i32)
        } else {
            None
        },
        None => None,
    }
}

} // verus!
