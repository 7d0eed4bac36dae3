//! Parsing decimal integers out of wire strings, with the grammar that the
//! standard library's `str::parse` accepts: an optional sign (only `+` for
//! the unsigned form), then one or more decimal digits, nothing else, and
//! the value within the target range.

use vstd::prelude::*;

verus! {

/// Whether `c` is a decimal digit.
pub open spec fn is_digit(c: char) -> bool {
    '0' <= c && c <= '9'
}

/// The value of one decimal digit (zero for anything else).
pub open spec fn digit_val(c: char) -> nat {
    if is_digit(c) {
        (c as nat - '0' as nat) as nat
    } else {
        0
    }
}

/// Whether every character of `s` is a decimal digit.
pub open spec fn all_digits(s: Seq<char>) -> bool {
    forall|i: int| 0 <= i < s.len() ==> is_digit(#[trigger] s[i])
}

/// The value of a digit string, most significant digit first.
pub open spec fn digits_val(s: Seq<char>) -> nat
    decreases s.len(),
{
    if s.len() == 0 {
        0
    } else {
        digits_val(s.drop_last()) * 10 + digit_val(s.last())
    }
}

/// The digit part of a number text: everything after a leading sign.
pub open spec fn sign_body(s: Seq<char>, plus_only: bool) -> Seq<char> {
    if s.len() > 0 && (s[0] == '+' || (!plus_only && s[0] == '-')) {
        s.drop_first()
    } else {
        s
    }
}

/// What `str::parse::<u32>` yields: `None` unless the text is an optional
/// `+` followed by one or more digits whose value fits in 32 bits.
pub open spec fn parsed_u32(s: Seq<char>) -> Option<u32> {
    let body = sign_body(s, true);
    if body.len() == 0 || !all_digits(body) || digits_val(body) > u32::MAX {
        None
    } else {
        Some(digits_val(body) as u32)
    }
}

/// What `str::parse::<i32>` yields: `None` unless the text is an optional
/// sign followed by one or more digits whose signed value fits in 32 bits.
pub open spec fn parsed_i32(s: Seq<char>) -> Option<i32> {
    let body = sign_body(s, false);
    let negative = s.len() > 0 && s[0] == '-';
    if body.len() == 0 || !all_digits(body) {
        None
    } else if negative {
        if digits_val(body) > 0x8000_0000 {
            None
        } else {
            Some((0 - digits_val(body) as int) as i32)
        }
    } else {
        if digits_val(body) > i32::MAX {
            None
        } else {
            Some(digits_val(body) as i32)
        }
    }
}

/// A longer digit string never has a smaller value.
proof fn lemma_digits_val_grows(s: Seq<char>, i: int)
    requires
        0 <= i <= s.len(),
    ensures
        digits_val(s.take(i)) <= digits_val(s),
    decreases s.len() - i,
{
    if i < s.len() {
        let t = s.take(i + 1);
        assert(t.drop_last() =~= s.take(i));
        assert(digits_val(s.take(i + 1)) == digits_val(s.take(i)) * 10 + digit_val(s[i]));
        assert(digits_val(s.take(i)) * 10 >= digits_val(s.take(i))) by (nonlinear_arith)
            requires
                digits_val(s.take(i)) >= 0,
        ;
        lemma_digits_val_grows(s, i + 1);
        assert(s.take(s.len() as int) =~= s);
    } else {
        assert(s.take(i) =~= s);
    }
}

/// The accumulated value of the digits of `s` from `from` on, given the
/// value so far.
fn digits_loop(s: &str, from: usize, n: usize, bound: u64) -> (r: Option<u64>)
    requires
        n == s@.len(),
        from < n,
        0 < bound <= 0x1_0000_0000,
    ensures
        match r {
            Some(v) => {
                &&& all_digits(s@.skip(from as int))
                &&& digits_val(s@.skip(from as int)) == v
                &&& v <= bound
            },
            None => !all_digits(s@.skip(from as int)) || digits_val(s@.skip(from as int))
                > bound,
        },
{
    let ghost body = s@.skip(from as int);
    let mut acc: u64 = 0;
    let mut i: usize = from;
    while i < n
        invariant
            n == s@.len(),
            from <= i <= n,
            body == s@.skip(from as int),
            0 < bound <= 0x1_0000_0000,
            all_digits(body.take(i - from)),
            acc == digits_val(body.take(i - from)),
            acc <= bound,
        decreases n - i,
    {
        let c = s.get_char(i);
        proof {
            assert(body[i - from] == s@[i as int]);
        }
        let u = c as u32;
        if u < 0x30 || u > 0x39 {
            proof {
                assert(!is_digit(body[i - from]));
            }
            return None;
        }
        let d = (u - 0x30) as u64;
        proof {
            assert(acc * 10 <= bound * 10) by (nonlinear_arith)
                requires
                    acc <= bound,
            ;
        }
        let wide = acc * 10 + d;
        let ghost t = body.take(i - from + 1);
        proof {
            assert(t.drop_last() =~= body.take(i - from));
            assert(t.last() == body[i - from]);
            assert(is_digit(body[i - from]));
            assert(digit_val(body[i - from]) == d);
            assert(digits_val(t) == wide);
        }
        if wide > bound {
            proof {
                lemma_digits_val_grows(body, i - from + 1);
            }
            return None;
        }
        acc = wide;
        i += 1;
    }
    proof {
        assert(body.take(n - from) =~= body);
    }
    Some(acc)
}

/// Parse an unsigned 32-bit decimal the way `str::parse::<u32>` does.
pub fn parse_u32(s: &str) -> (r: Option<u32>)
    ensures
        r == parsed_u32(s@),
{
    let n = s.unicode_len();
    if n == 0 {
        return None;
    }
    let first = s.get_char(0);
    let start: usize = if first == '+' {
        1
    } else {
        0
    };
    proof {
        if start == 0 {
            assert(s@.skip(0) =~= s@);
        }
        assert(sign_body(s@, true) =~= s@.skip(start as int));
    }
    if start == n {
        return None;
    }
    match digits_loop(s, start, n, u32::MAX as u64) {
        Some(v) => Some(v as u32),
        None => None,
    }
}

/// Parse a signed 32-bit decimal the way `str::parse::<i32>` does.
pub fn parse_i32(s: &str) -> (r: Option<i32>)
    ensures
        r == parsed_i32(s@),
{
    let n = s.unicode_len();
    if n == 0 {
        return None;
    }
    let first = s.get_char(0);
    let negative = first == '-';
    let start: usize = if first == '+' || first == '-' {
        1
    } else {
        0
    };
    proof {
        if start == 0 {
            assert(s@.skip(0) =~= s@);
        }
        assert(sign_body(s@, false) =~= s@.skip(start as int));
    }
    if start == n {
        return None;
    }
    let bound: u64 = if negative {
        0x8000_0000
    } else {
        i32::MAX as u64
    };
    match digits_loop(s, start, n, bound) {
        Some(v) => {
            if negative {
                if v == 0x8000_0000 {
                    Some(i32::MIN)
                } else {
                    Some(-(v as i32))
                }
            } else {
                Some(v as i32)
            }
        },
        None => None,
    }
}

} // verus!
