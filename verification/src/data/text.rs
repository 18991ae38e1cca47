//! Unsigned decimal numbers written as text.

use vstd::prelude::*;

verus! {

/// Whether `c` is one of the ten ASCII digits.
pub open spec fn is_digit(c: char) -> bool {
    '0' <= c <= '9'
}

/// The digit that `c` stands for; 0 for any other character.
pub open spec fn digit_of(c: char) -> nat {
    if is_digit(c) {
        (c as nat - '0' as nat) as nat
    } else {
        0
    }
}

/// The number that the digits of `s` write in base ten, the first digit weighing most.
pub open spec fn number_value(s: Seq<char>) -> nat
    decreases s.len(),
{
    if s.len() == 0 {
        0
    } else {
        number_value(s.drop_last()) * 10 + digit_of(s.last())
    }
}

/// `s` without a single leading plus sign.
pub open spec fn unsigned_part(s: Seq<char>) -> Seq<char> {
    if s.len() > 0 && s[0] == '+' {
        s.drop_first()
    } else {
        s
    }
}

/// The number that `s` denotes, where `s` is an optional plus sign followed by one
/// or more digits and nothing else, and the number is at most `max`.
pub open spec fn decimal(s: Seq<char>, max: nat) -> Option<nat> {
    let digits = unsigned_part(s);
    if digits.len() > 0 && (forall|i: int| 0 <= i < digits.len() ==> is_digit(#[trigger] digits[i]))
        && number_value(digits) <= max {
        Some(number_value(digits))
    } else {
        None
    }
}

/// A longer numeral is never worth less than one of its prefixes.
proof fn lemma_prefix_value(s: Seq<char>, k: int)
    requires
        0 <= k <= s.len(),
    ensures
        number_value(s.take(k)) <= number_value(s),
    decreases s.len(),
{
    if k < s.len() {
        lemma_prefix_value(s.drop_last(), k);
        assert(s.drop_last().take(k) == s.take(k));
    } else {
        assert(s.take(k) == s);
    }
}

/// Reads an unsigned decimal number of at most `max` from `s`.
pub fn parse_decimal(s: &str, max: u64) -> (parsed: Option<u64>)
    ensures
        match parsed {
            Some(n) => decimal(s@, max as nat) == Some(n as nat),
            None => decimal(s@, max as nat) is None,
        },
{
    let ghost start: int = if s@.len() > 0 && s@[0] == '+' {
        1
    } else {
        0
    };
    let ghost digits = unsigned_part(s@);
    assert(digits == s@.skip(start));
    let mut value: u64 = 0;
    let mut first = true;
    let mut any = false;
    for c in it: s.chars()
        invariant
            it.seq() == s@,
            start == if s@.len() > 0 && s@[0] == '+' {
                1int
            } else {
                0int
            },
            digits == s@.skip(start),
            digits == unsigned_part(s@),
            first == (it.index() == 0),
            any == (it.index() > start),
            value <= max,
            it.index() < start ==> value == 0,
            it.index() >= start ==> value == number_value(digits.take(it.index() - start)),
            forall|k: int| 0 <= k < it.index() - start ==> is_digit(#[trigger] digits[k]),
    {
        let ghost i = it.index() as int;
        if first && c == '+' {
            first = false;
            assert(digits.take(0) =~= Seq::<char>::empty());
        } else {
            first = false;
            let ghost k = i - start;
            assert(digits[k] == c);
            assert(digits.take(k + 1).drop_last() == digits.take(k));
            assert(digits.take(k + 1).last() == c);
            if c < '0' || c > '9' {
                assert(!is_digit(digits[k]));
                return None;
            }
            let d: u64 = (c as u64) - ('0' as u64);
            assert(d == digit_of(c));
            assert(number_value(digits.take(k + 1)) == value * 10 + d);
            if d > max || value > (max - d) / 10 {
                proof {
                    lemma_prefix_value(digits, k + 1);
                    assert(value * 10 + d > max) by (nonlinear_arith)
                        requires
                            d > max || (d <= max && value > (max - d) / 10),
                    ;
                }
                return None;
            }
            assert(value * 10 + d <= max) by (nonlinear_arith)
                requires
                    d <= max,
                    value <= (max - d) / 10,
            ;
            value = value * 10 + d;
            any = true;
        }
    }
    if !any {
        return None;
    }
    assert(digits.take(s@.len() - start) == digits);
    Some(value)
}

} // verus!
