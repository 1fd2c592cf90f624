//! Decimal numerals: rendering an unsigned integer as its decimal digit
//! string, and parsing a 16-bit quantity out of one.

use vstd::prelude::*;
use vstd::string::{StrSliceExecFns, StringExecFns};

verus! {

/// Whether `c` is one of the ten ASCII decimal digits.
pub open spec fn is_decimal_digit(c: char) -> bool {
    '0' as int <= c as int <= '9' as int
}

/// The numeric value of a decimal digit character.
pub open spec fn digit_value(c: char) -> int {
    c as int - '0' as int
}

/// The digit character for a value in `[0, 10)`.
pub open spec fn digit_char(d: int) -> char {
    if d == 0 {
        '0'
    } else if d == 1 {
        '1'
    } else if d == 2 {
        '2'
    } else if d == 3 {
        '3'
    } else if d == 4 {
        '4'
    } else if d == 5 {
        '5'
    } else if d == 6 {
        '6'
    } else if d == 7 {
        '7'
    } else if d == 8 {
        '8'
    } else {
        '9'
    }
}

/// The decimal numeral of `n`, most significant digit first, with no sign
/// and no leading zero except for `n == 0` itself.
pub open spec fn spec_decimal(n: nat) -> Seq<char>
    decreases n,
{
    if n < 10 {
        seq![digit_char(n as int)]
    } else {
        spec_decimal(n / 10) + seq![digit_char((n % 10) as int)]
    }
}

/// Whether every character of `s` is a decimal digit.
pub open spec fn all_decimal_digits(s: Seq<char>) -> bool {
    forall|i: int| 0 <= i < s.len() ==> is_decimal_digit(s[i])
}

/// The value of a digit string, most significant digit first; 0 when empty.
pub open spec fn digits_value(s: Seq<char>) -> int
    decreases s.len(),
{
    if s.len() == 0 {
        0
    } else {
        digits_value(s.drop_last()) * 10 + digit_value(s.last())
    }
}

/// The digits of a numeral: everything after an optional leading plus sign.
pub open spec fn numeral_body(s: Seq<char>) -> Seq<char> {
    if s.len() > 0 && s[0] == '+' {
        s.skip(1)
    } else {
        s
    }
}

/// Whether `s` is a numeral that denotes a 16-bit value: at least one digit
/// after the optional plus sign, digits only, value at most `u16::MAX`.
pub open spec fn is_u16_numeral(s: Seq<char>) -> bool {
    let body = numeral_body(s);
    &&& body.len() > 0
    &&& all_decimal_digits(body)
    &&& digits_value(body) <= u16::MAX
}

/// The value a numeral denotes.
pub open spec fn u16_numeral_value(s: Seq<char>) -> int {
    digits_value(numeral_body(s))
}

/// A string of decimal digits never denotes a negative value.
proof fn lemma_digits_value_nonneg(s: Seq<char>)
    requires
        all_decimal_digits(s),
    ensures
        digits_value(s) >= 0,
    decreases s.len(),
{
    if s.len() > 0 {
        assert(all_decimal_digits(s.drop_last()));
        lemma_digits_value_nonneg(s.drop_last());
    }
}

/// The one-character string for a digit value.
fn digit_str(d: u64) -> (r: &'static str)
    requires
        d < 10,
    ensures
        r@ == seq![digit_char(d as int)],
{
    let s: &'static str = match d {
        0 => "0",
        1 => "1",
        2 => "2",
        3 => "3",
        4 => "4",
        5 => "5",
        6 => "6",
        7 => "7",
        8 => "8",
        _ => "9",
    };
    proof {
        reveal_strlit("0");
        reveal_strlit("1");
        reveal_strlit("2");
        reveal_strlit("3");
        reveal_strlit("4");
        reveal_strlit("5");
        reveal_strlit("6");
        reveal_strlit("7");
        reveal_strlit("8");
        reveal_strlit("9");
        assert(s@ =~= seq![digit_char(d as int)]);
    }
    s
}

/// Render `n` as its decimal numeral.
pub fn u64_to_decimal(n: u64) -> (r: String)
    ensures
        r@ == spec_decimal(n as nat),
    decreases n,
{
    if n < 10 {
        String::from_str(digit_str(n))
    } else {
        let mut prefix = u64_to_decimal(n / 10);
        prefix.append(digit_str(n % 10));
        prefix
    }
}

/// Parse a 16-bit quantity out of `s`: `Some` exactly when `s` is a decimal
/// numeral (optionally plus-signed) whose value fits in 16 bits.
pub fn parse_u16(s: &str) -> (r: Option<u16>)
    ensures
        is_u16_numeral(s@) ==> 0 <= u16_numeral_value(s@) <= u16::MAX,
        is_u16_numeral(s@) ==> r == Some(u16_numeral_value(s@) as u16),
        !is_u16_numeral(s@) ==> r == None::<u16>,
{
    let len = s.unicode_len();
    let mut start: usize = 0;
    if len > 0 && s.get_char(0) == '+' {
        start = 1;
    }
    proof {
        assert(numeral_body(s@) =~= s@.skip(start as int));
    }
    if start >= len {
        return None;
    }
    let ghost body = numeral_body(s@);
    let mut acc: u32 = 0;
    let mut i: usize = start;
    while i < len
        invariant
            start <= i <= len,
            len == s@.len(),
            body == numeral_body(s@),
            body == s@.skip(start as int),
            body.len() == len - start,
            forall|k: int| start <= k < i ==> is_decimal_digit(s@[k]),
            acc <= 65536,
            ({
                let sofar = digits_value(s@.subrange(start as int, i as int));
                &&& (sofar <= 65535 ==> acc == sofar)
                &&& (sofar > 65535 ==> acc == 65536)
            }),
        decreases len - i,
    {
        let c = s.get_char(i);
        let cv = c as u32;
        if cv < 48 || cv > 57 {
            proof {
                assert(body[i - start] == s@[i as int]);
                assert(!is_decimal_digit(body[i - start]));
                assert(!all_decimal_digits(body));
                assert(!is_u16_numeral(s@));
            }
            return None;
        }
        let d: u32 = cv - 48;
        let ghost pre = s@.subrange(start as int, i as int);
        let ghost pre2 = s@.subrange(start as int, i + 1);
        proof {
            lemma_digits_value_nonneg(pre);
            assert(pre2.drop_last() =~= pre);
            assert(pre2.last() == s@[i as int]);
            assert(digits_value(pre2) == digits_value(pre) * 10 + digit_value(s@[i as int]));
        }
        acc = acc * 10 + d;
        if acc > 65535 {
            acc = 65536;
        }
        i = i + 1;
    }
    proof {
        assert(s@.subrange(start as int, len as int) =~= body);
        lemma_digits_value_nonneg(body);
    }
    if acc > 65535 {
        None
    } else {
        Some(acc as u16)
    }
}

} // verus!
