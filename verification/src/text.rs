//! Verified text helpers: string equality, decimal integer parsing in
//! the style of `str::parse`, and decimal integer rendering.

use vstd::prelude::*;

verus! {

/// Whether two string slices hold the same characters.
pub fn str_eq(a: &str, b: &str) -> (r: bool)
    ensures
        r == (a@ == b@),
{
    let owned_a: String = a.to_owned();
    let owned_b: String = b.to_owned();
    owned_a == owned_b
}

/// A decimal digit.
pub open spec fn is_digit(c: char) -> bool {
    '0' <= c && c <= '9'
}

/// The value of a decimal digit.
pub open spec fn digit_val(c: char) -> int {
    c as int - '0' as int
}

/// Whether every character of `s` is a decimal digit.
pub open spec fn all_digits(s: Seq<char>) -> bool {
    forall|i: int| 0 <= i < s.len() ==> is_digit(#[trigger] s[i])
}

/// The value of a sequence of decimal digits, most significant first.
pub open spec fn digits_val(s: Seq<char>) -> int
    decreases s.len(),
{
    if s.len() == 0 {
        0
    } else {
        digits_val(s.drop_last()) * 10 + digit_val(s.last())
    }
}

/// The integer a string denotes under the grammar of `str::parse` for
/// signed integers — an optional `+` or `-` sign followed by at least
/// one decimal digit — or `None` when the string is not of that shape.
pub open spec fn str_int(s: Seq<char>) -> Option<int> {
    if s.len() >= 1 && (s[0] == '-' || s[0] == '+') {
        if s.len() >= 2 && all_digits(s.skip(1)) {
            if s[0] == '-' {
                Some(-digits_val(s.skip(1)))
            } else {
                Some(digits_val(s.skip(1)))
            }
        } else {
            None
        }
    } else {
        if s.len() >= 1 && all_digits(s) {
            Some(digits_val(s))
        } else {
            None
        }
    }
}

proof fn lemma_digits_val_nonneg(s: Seq<char>)
    requires
        all_digits(s),
    ensures
        digits_val(s) >= 0,
    decreases s.len(),
{
    if s.len() > 0 {
        assert(all_digits(s.drop_last()));
        lemma_digits_val_nonneg(s.drop_last());
    }
}

proof fn lemma_digits_val_take_step(s: Seq<char>, i: int)
    requires
        0 <= i < s.len(),
    ensures
        digits_val(s.take(i + 1)) == digits_val(s.take(i)) * 10 + digit_val(s[i]),
{
    assert(s.take(i + 1).drop_last() =~= s.take(i));
    assert(s.take(i + 1).last() == s[i]);
}

/// Parses a signed decimal integer exactly as `str::parse::<i64>`
/// does: `None` on a malformed string and on a value outside the
/// 64-bit signed range.
pub fn parse_i64(s: &str) -> (r: Option<i64>)
    ensures
        r == match str_int(s@) {
            Some(n) => if i64::MIN <= n <= i64::MAX {
                Some(n as i64)
            } else {
                None
            },
            None => None::<i64>,
        },
{
    let n = s.unicode_len();
    if n == 0 {
        return None;
    }
    let first = s.get_char(0);
    let negative = first == '-';
    let signed = first == '-' || first == '+';
    let start: usize = if signed {
        1
    } else {
        0
    };
    if n == start {
        return None;
    }
    let ghost digits = if signed {
        s@.skip(1)
    } else {
        s@
    };
    let mut acc: u64 = 0;
    let mut overflow: bool = false;
    let mut i: usize = start;
    while i < n
        invariant
            start <= i <= n,
            start == if signed {
                1int
            } else {
                0int
            },
            n == s@.len(),
            signed == (s@[0] == '-' || s@[0] == '+'),
            digits == if signed {
                s@.skip(1)
            } else {
                s@
            },
            digits.len() == n - start,
            all_digits(digits.take(i - start)),
            !overflow ==> acc as int == digits_val(digits.take(i - start)),
            overflow ==> digits_val(digits.take(i - start)) > u64::MAX,
            overflow ==> all_digits(digits.take(i - start)),
        decreases n - i,
    {
        let c = s.get_char(i);
        proof {
            assert(digits[i - start] == s@[i as int]);
        }
        if c < '0' || c > '9' {
            proof {
                assert(!is_digit(digits[i - start]));
                assert(!all_digits(digits));
            }
            return None;
        }
        let d: u64 = (c as u32 as u64) - ('0' as u32 as u64);
        proof {
            assert(d as int == digit_val(s@[i as int]));
            lemma_digits_val_take_step(digits, i - start);
            assert(digits.take(i - start + 1) =~= digits.take(i - start).push(digits[i - start]));
        }
        if !overflow && acc <= (u64::MAX - d) / 10 {
            proof {
                assert(acc * 10 + d <= u64::MAX) by (nonlinear_arith)
                    requires
                        acc <= (u64::MAX - d) / 10,
                        d <= 9,
                ;
            }
            acc = acc * 10 + d;
        } else {
            proof {
                if !overflow {
                    assert(acc * 10 + d > u64::MAX) by (nonlinear_arith)
                        requires
                            acc > (u64::MAX - d) / 10,
                            d <= 9,
                    ;
                } else {
                    lemma_digits_val_nonneg(digits.take(i - start));
                    assert(digits_val(digits.take(i - start)) * 10 + d as int > u64::MAX)
                        by (nonlinear_arith)
                        requires
                            digits_val(digits.take(i - start)) > u64::MAX,
                            d >= 0,
                    ;
                }
            }
            overflow = true;
        }
        i += 1;
    }
    proof {
        assert(digits.take(n - start) =~= digits);
        if signed {
            assert(s@[0] == '-' || s@[0] == '+');
        } else {
            assert(s@.len() >= 1 && all_digits(s@));
            assert(!(s@[0] == '-' || s@[0] == '+')) by {
                assert(is_digit(s@[0]));
            }
        }
    }
    if overflow {
        return None;
    }
    if negative {
        if acc <= 9223372036854775807u64 {
            Some(-(acc as i64))
        } else if acc == 9223372036854775808u64 {
            Some(i64::MIN)
        } else {
            None
        }
    } else {
        if acc <= 9223372036854775807u64 {
            Some(acc as i64)
        } else {
            None
        }
    }
}

/// The character of a decimal digit value.
pub open spec fn digit_char(d: int) -> char {
    if d == 0 {
        '0'
    } else if d == 1 {
        '1'
    } else if d == 2 {
        '2'
    } else if d == 3 {
        '3'
    } else if d == 4 {
        '4'
    } else if d == 5 {
        '5'
    } else if d == 6 {
        '6'
    } else if d == 7 {
        '7'
    } else if d == 8 {
        '8'
    } else {
        '9'
    }
}

/// The decimal rendering of a non-negative integer, no sign, no
/// leading zeroes (a lone `0` for zero).
pub open spec fn nat_chars(n: int) -> Seq<char>
    decreases n,
{
    if n < 10 {
        seq![digit_char(n)]
    } else {
        nat_chars(n / 10).push(digit_char(n % 10))
    }
}

/// The decimal rendering of a signed integer: a `-` sign for negative
/// values, then the digits.
pub open spec fn int_chars(n: int) -> Seq<char> {
    if n < 0 {
        seq!['-'] + nat_chars(-n)
    } else {
        nat_chars(n)
    }
}

fn digit_str(d: u64) -> (r: &'static str)
    requires
        d < 10,
    ensures
        r@ =~= seq![digit_char(d as int)],
{
    proof {
        reveal_strlit("0");
        reveal_strlit("1");
        reveal_strlit("2");
        reveal_strlit("3");
        reveal_strlit("4");
        reveal_strlit("5");
        reveal_strlit("6");
        reveal_strlit("7");
        reveal_strlit("8");
        reveal_strlit("9");
    }
    match d {
        0 => "0",
        1 => "1",
        2 => "2",
        3 => "3",
        4 => "4",
        5 => "5",
        6 => "6",
        7 => "7",
        8 => "8",
        _ => "9",
    }
}

fn nat_to_string(n: u64) -> (r: String)
    ensures
        r@ == nat_chars(n as int),
    decreases n,
{
    if n < 10 {
        digit_str(n).to_owned()
    } else {
        let mut s = nat_to_string(n / 10);
        s.append(digit_str(n % 10));
        proof {
            assert(nat_chars((n / 10) as int) + seq![digit_char((n % 10) as int)] =~= nat_chars(
                (n / 10) as int,
            ).push(digit_char((n % 10) as int)));
        }
        s
    }
}

/// Renders a signed integer in decimal, exactly as `i64`'s `Display`
/// form does.
pub fn i64_to_string(n: i64) -> (r: String)
    ensures
        r@ == int_chars(n as int),
{
    if n >= 0 {
        nat_to_string(n as u64)
    } else {
        let magnitude: u64 = if n == i64::MIN {
            9223372036854775808u64
        } else {
            (-n) as u64
        };
        let mut s = String::new();
        proof {
            reveal_strlit("-");
        }
        s.append("-");
        let rest = nat_to_string(magnitude);
        s.append(rest.as_str());
        proof {
            assert(s@ =~= seq!['-'] + nat_chars(magnitude as int));
            assert(int_chars(n as int) == seq!['-'] + nat_chars(-(n as int)));
        }
        s
    }
}

} // verus!
