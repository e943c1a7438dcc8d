//! Company identifiers of manufacturer data, as the wire carries them: text.

use vstd::prelude::*;

verus! {

/// Whether `c` is one of the ten decimal digits.
pub open spec fn is_digit(c: char) -> bool {
    '0' <= c && c <= '9'
}

/// The number that the decimal digit `c` stands for.
pub open spec fn digit_value(c: char) -> nat {
    (c as u32 - '0' as u32) as nat
}

/// The number that a string of decimal digits stands for.
pub open spec fn decimal_value(digits: Seq<char>) -> nat
    decreases digits.len(),
{
    if digits.len() == 0 {
        0
    } else {
        decimal_value(digits.drop_last()) * 10 + digit_value(digits.last())
    }
}

/// The text without the plus sign that may stand in front of the digits.
pub open spec fn unsigned_part(text: Seq<char>) -> Seq<char> {
    if text.len() > 0 && text[0] == '+' {
        text.drop_first()
    } else {
        text
    }
}

/// The company identifier that `text` spells: decimal digits, at least one,
/// with an optional plus sign in front and nothing else around them, for a
/// number that fits in 16 bits. Any other text spells none.
pub open spec fn spec_parse_company_id(text: Seq<char>) -> Option<u16> {
    let digits = unsigned_part(text);
    if digits.len() > 0 && (forall|i: int| 0 <= i < digits.len() ==> is_digit(#[trigger] digits[i]))
        && decimal_value(digits) <= 0xffff {
        Some(decimal_value(digits) as u16)
    } else {
        None
    }
}

/// Digits that follow can only make the number larger.
proof fn lemma_decimal_value_grows(digits: Seq<char>, n: int)
    requires
        0 <= n <= digits.len(),
    ensures
        decimal_value(digits.take(n)) <= decimal_value(digits),
    decreases digits.len(),
{
    if n == digits.len() {
        assert(digits.take(n) =~= digits);
    } else {
        assert(digits.drop_last().take(n) =~= digits.take(n));
        lemma_decimal_value_grows(digits.drop_last(), n);
    }
}

/// Reads a company identifier from its text.
pub fn parse_company_id(text: &str) -> (id: Option<u16>)
    ensures
        id == spec_parse_company_id(text@),
{
    let ghost digits = unsigned_part(text@);
    let ghost start: int = text@.len() - digits.len();
    let mut value: u32 = 0;
    let mut first = true;
    let mut any = false;
    for c in it: text.chars()
        invariant
            it.seq() == text@,
            digits == unsigned_part(text@),
            start == text@.len() - digits.len(),
            first <==> it.index() == 0,
            any <==> it.index() > start,
            it.index() >= start ==> value == decimal_value(digits.take(it.index() - start)),
            it.index() < start ==> value == 0,
            value <= 0xffff,
            forall|i: int| 0 <= i < it.index() - start ==> is_digit(#[trigger] digits[i]),
    {
        let ghost k: int = it.index() as int;
        let sign = first && c == '+';
        if !sign {
            if '0' <= c && c <= '9' {
                proof {
                    assert(digits.take(k - start + 1).drop_last() =~= digits.take(k - start));
                }
                value = value * 10 + (c as u32 - '0' as u32);
                if value > 0xffff {
                    proof {
                        lemma_decimal_value_grows(digits, k - start + 1);
                    }
                    return None;
                }
                any = true;
            } else {
                assert(!is_digit(digits[k - start]));
                return None;
            }
        }
        first = false;
    }
    if any {
        assert(digits.take(digits.len() as int) =~= digits);
        Some(value as u16)
    } else {
        None
    }
}

} // verus!
