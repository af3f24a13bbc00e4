//! Decimal numerals: parsing the integer path segments and request
//! fields the gateway receives, and rendering ids into response bodies
//! and provider requests.

use vstd::prelude::*;

verus! {

/// A decimal digit.
pub open spec fn is_digit(c: char) -> bool {
    '0' <= c && c <= '9'
}

/// The numeric value of one digit.
pub open spec fn digit_val(c: char) -> int {
    c as int - '0' as int
}

/// A non-empty run of digits.
pub open spec fn digits_wf(s: Seq<char>) -> bool {
    s.len() > 0 && forall|i: int| 0 <= i < s.len() ==> is_digit(s[i])
}

/// The value of a run of digits, most significant first.
pub open spec fn digits_val(s: Seq<char>) -> int
    decreases s.len(),
{
    if s.len() == 0 {
        0
    } else {
        digits_val(s.drop_last()) * 10 + digit_val(s.last())
    }
}

/// A decimal numeral as `str::parse` on a signed integer accepts it:
/// an optional sign, then at least one digit.
pub open spec fn numeral_wf(s: Seq<char>) -> bool {
    if s.len() > 0 && (s[0] == '+' || s[0] == '-') {
        digits_wf(s.subrange(1, s.len() as int))
    } else {
        digits_wf(s)
    }
}

/// The signed value of a well-formed numeral.
pub open spec fn numeral_val(s: Seq<char>) -> int {
    if s.len() > 0 && s[0] == '-' {
        -digits_val(s.subrange(1, s.len() as int))
    } else if s.len() > 0 && s[0] == '+' {
        digits_val(s.subrange(1, s.len() as int))
    } else {
        digits_val(s)
    }
}

proof fn lemma_digits_val_nonneg(s: Seq<char>)
    requires
        forall|i: int| 0 <= i < s.len() ==> is_digit(s[i]),
    ensures
        digits_val(s) >= 0,
    decreases s.len(),
{
    if s.len() > 0 {
        lemma_digits_val_nonneg(s.drop_last());
    }
}

/// Parses a signed 32-bit decimal numeral; `None` where the text is
/// not a numeral or its value does not fit.
pub fn parse_i32(s: &str) -> (r: Option<i32>)
    ensures
        match r {
            Some(n) => numeral_wf(s@) && n as int == numeral_val(s@),
            None => !(numeral_wf(s@) && -0x8000_0000 <= numeral_val(s@) < 0x8000_0000),
        },
{
    let len = s.unicode_len();
    if len == 0 {
        return None;
    }
    let first = s.get_char(0);
    let neg = first == '-';
    let start: usize = if first == '-' || first == '+' {
        1
    } else {
        0
    };
    if start == len {
        return None;
    }
    let ghost digits = s@.subrange(start as int, len as int);
    let mut acc: i64 = 0;
    let mut too_big = false;
    let mut i = start;
    while i < len
        invariant
            start <= i <= len,
            len == s@.len(),
            start < len,
            start <= 1,
            start == 1 <==> (s@[0] == '+' || s@[0] == '-'),
            digits == s@.subrange(start as int, len as int),
            forall|j: int| start <= j < i ==> is_digit(s@[j]),
            !too_big ==> 0 <= acc <= 0x8000_0000 && acc == digits_val(
                s@.subrange(start as int, i as int),
            ),
            too_big ==> digits_val(s@.subrange(start as int, i as int)) > 0x8000_0000,
        decreases len - i,
    {
        let c = s.get_char(i);
        if !('0' <= c && c <= '9') {
            proof {
                assert(digits[i - start] == s@[i as int]);
                if start == 1 {
                    assert(digits =~= s@.subrange(1, s@.len() as int));
                } else {
                    assert(digits =~= s@);
                }
            }
            return None;
        }
        proof {
            assert(s@.subrange(start as int, i + 1).drop_last() =~= s@.subrange(
                start as int,
                i as int,
            ));
            assert(s@.subrange(start as int, i + 1).last() == s@[i as int]);
        }
        let d: u32 = (c as u32) - ('0' as u32);
        if too_big {
            proof {
                let prev = digits_val(s@.subrange(start as int, i as int));
                assert(digits_val(s@.subrange(start as int, i + 1)) == prev * 10 + digit_val(
                    s@[i as int],
                ));
                assert(prev * 10 > 0x8000_0000 * 10) by (nonlinear_arith)
                    requires
                        prev > 0x8000_0000,
                ;
            }
        } else {
            acc = acc * 10 + (d as i64);
            if acc > 0x8000_0000 {
                too_big = true;
            }
        }
        i += 1;
    }
    proof {
        assert(s@.subrange(start as int, len as int) == digits);
    }
    if too_big {
        proof {
            if start == 1 {
                assert(digits =~= s@.subrange(1, s@.len() as int));
            } else {
                assert(digits =~= s@);
            }
        }
        return None;
    }
    proof {
        if start == 1 {
            assert(digits =~= s@.subrange(1, s@.len() as int));
        } else {
            assert(digits =~= s@);
        }
    }
    if neg {
        if acc == 0x8000_0000 {
            Some(i32::MIN)
        } else {
            Some(-(acc as i32))
        }
    } else {
        if acc > 0x7fff_ffff {
            return None;
        }
        Some(acc as i32)
    }
}

/// One digit as a character.
pub open spec fn digit_char(d: int) -> char {
    if d == 0 {
        '0'
    } else if d == 1 {
        '1'
    } else if d == 2 {
        '2'
    } else if d == 3 {
        '3'
    } else if d == 4 {
        '4'
    } else if d == 5 {
        '5'
    } else if d == 6 {
        '6'
    } else if d == 7 {
        '7'
    } else if d == 8 {
        '8'
    } else {
        '9'
    }
}

/// The decimal rendering of a non-negative value.
pub open spec fn dec_digits(n: nat) -> Seq<char>
    decreases n,
{
    if n < 10 {
        seq![digit_char(n as int)]
    } else {
        dec_digits(n / 10).push(digit_char((n % 10) as int))
    }
}

/// The decimal rendering of a signed value, with `-` where negative.
pub open spec fn dec_str(n: int) -> Seq<char> {
    if n < 0 {
        seq!['-'] + dec_digits((-n) as nat)
    } else {
        dec_digits(n as nat)
    }
}

fn digit_str(d: u32) -> (r: &'static str)
    requires
        d < 10,
    ensures
        r@ =~= seq![digit_char(d as int)],
{
    proof {
        reveal_strlit("0");
        reveal_strlit("1");
        reveal_strlit("2");
        reveal_strlit("3");
        reveal_strlit("4");
        reveal_strlit("5");
        reveal_strlit("6");
        reveal_strlit("7");
        reveal_strlit("8");
        reveal_strlit("9");
    }
    match d {
        0 => "0",
        1 => "1",
        2 => "2",
        3 => "3",
        4 => "4",
        5 => "5",
        6 => "6",
        7 => "7",
        8 => "8",
        _ => "9",
    }
}

/// Renders an unsigned value in decimal.
pub fn format_u32(n: u32) -> (r: String)
    ensures
        r@ == dec_digits(n as nat),
    decreases n,
{
    if n < 10 {
        String::from_str(digit_str(n))
    } else {
        let prefix = format_u32(n / 10);
        prefix.concat(digit_str(n % 10))
    }
}

/// Renders a signed value in decimal.
pub fn format_i32(n: i32) -> (r: String)
    ensures
        r@ == dec_str(n as int),
{
    proof {
        reveal_strlit("-");
    }
    if n >= 0 {
        format_u32(n as u32)
    } else {
        let mag: u32 = (-(n as i64)) as u32;
        String::from_str("-").concat(format_u32(mag).as_str())
    }
}

} // verus!
