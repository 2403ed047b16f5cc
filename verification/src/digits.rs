//! Decimal numerals: rendering integers as strings and reading them back.
//!
//! Page indices are sent as decimal strings without leading zeros, and
//! JSON integer fields arrive as raw numeral text; both directions are
//! specified against the same digit model.

use vstd::prelude::*;
use vstd::string::*;

verus! {

/// The character for a single decimal digit value.
pub open spec fn dec_digit(d: nat) -> char {
    if d == 0 {
        '0'
    } else if d == 1 {
        '1'
    } else if d == 2 {
        '2'
    } else if d == 3 {
        '3'
    } else if d == 4 {
        '4'
    } else if d == 5 {
        '5'
    } else if d == 6 {
        '6'
    } else if d == 7 {
        '7'
    } else if d == 8 {
        '8'
    } else {
        '9'
    }
}

/// The decimal numeral of `n`, most significant digit first, with no
/// leading zeros (zero itself is the single digit `0`).
pub open spec fn dec_chars(n: nat) -> Seq<char>
    decreases n,
{
    if n < 10 {
        seq![dec_digit(n)]
    } else {
        dec_chars(n / 10).push(dec_digit(n % 10))
    }
}

/// The decimal numeral of a signed value: a minus sign before the
/// numeral of the magnitude when the value is negative.
pub open spec fn int_chars(n: int) -> Seq<char> {
    if n < 0 {
        seq!['-'] + dec_chars((-n) as nat)
    } else {
        dec_chars(n as nat)
    }
}

/// A decimal numeral is never empty, consists of digits alone, and
/// carries no leading zero (zero itself being the one-digit numeral).
pub proof fn lemma_dec_chars_no_leading_zero(n: nat)
    ensures
        dec_chars(n).len() >= 1,
        n >= 1 ==> dec_chars(n)[0] != '0',
        all_dec_digits(dec_chars(n)),
    decreases n,
{
    if n < 10 {
        assert(all_dec_digits(dec_chars(n)));
    } else {
        assert(n / 10 >= 1 && n / 10 < n) by (nonlinear_arith)
            requires
                n >= 10,
        ;
        lemma_dec_chars_no_leading_zero(n / 10);
        assert(dec_chars(n)[0] == dec_chars(n / 10)[0]);
        assert(is_dec_digit(dec_chars(n).last()));
        assert(all_dec_digits(dec_chars(n)));
    }
}

pub(crate) fn digit_str(d: u64) -> (r: &'static str)
    requires
        d < 10,
    ensures
        r@ == seq![dec_digit(d as nat)],
{
    proof {
        reveal_strlit("0");
        reveal_strlit("1");
        reveal_strlit("2");
        reveal_strlit("3");
        reveal_strlit("4");
        reveal_strlit("5");
        reveal_strlit("6");
        reveal_strlit("7");
        reveal_strlit("8");
        reveal_strlit("9");
    }
    let r = if d == 0 {
        "0"
    } else if d == 1 {
        "1"
    } else if d == 2 {
        "2"
    } else if d == 3 {
        "3"
    } else if d == 4 {
        "4"
    } else if d == 5 {
        "5"
    } else if d == 6 {
        "6"
    } else if d == 7 {
        "7"
    } else if d == 8 {
        "8"
    } else {
        "9"
    };
    proof {
        assert(r@ =~= seq![dec_digit(d as nat)]);
    }
    r
}

/// Renders an unsigned value as its decimal numeral.
pub fn render_u64(n: u64) -> (r: String)
    ensures
        r@ == dec_chars(n as nat),
    decreases n,
{
    if n < 10 {
        digit_str(n).to_owned()
    } else {
        proof {
            assert(n / 10 < n) by (nonlinear_arith)
                requires
                    n >= 10,
            ;
        }
        let mut s = render_u64(n / 10);
        s.append(digit_str(n % 10));
        proof {
            assert(s@ =~= dec_chars(n as nat));
        }
        s
    }
}

/// Renders a signed value as its decimal numeral, with a minus sign
/// for negative values.
pub fn render_i64(n: i64) -> (r: String)
    ensures
        r@ == int_chars(n as int),
{
    if n >= 0 {
        render_u64(n as u64)
    } else {
        let mag: u64 = if n == i64::MIN {
            9223372036854775808u64
        } else {
            (-n) as u64
        };
        proof {
            reveal_strlit("-");
        }
        let mut s = String::from_str("-");
        let m = render_u64(mag);
        s.append(m.as_str());
        proof {
            assert(s@ =~= int_chars(n as int));
        }
        s
    }
}

/// Whether `c` is a decimal digit character.
pub open spec fn is_dec_digit(c: char) -> bool {
    '0' <= c && c <= '9'
}

/// The value of a decimal digit character.
pub open spec fn digit_val(c: char) -> int {
    c as int - '0' as int
}

/// Whether every character of `s` is a decimal digit.
pub open spec fn all_dec_digits(s: Seq<char>) -> bool {
    forall|i: int| 0 <= i < s.len() ==> is_dec_digit(#[trigger] s[i])
}

/// The value of a digit sequence read as a decimal numeral.
pub open spec fn dec_val(s: Seq<char>) -> int
    decreases s.len(),
{
    if s.len() == 0 {
        0
    } else {
        dec_val(s.drop_last()) * 10 + digit_val(s.last())
    }
}

/// The value that an integer numeral (an optional minus sign, then at
/// least one digit) denotes, or `None` where the text is no such numeral.
pub open spec fn int_text_val(s: Seq<char>) -> Option<int> {
    if s.len() >= 1 && s[0] == '-' {
        let t = s.subrange(1, s.len() as int);
        if t.len() >= 1 && all_dec_digits(t) {
            Some(-dec_val(t))
        } else {
            None
        }
    } else if s.len() >= 1 && all_dec_digits(s) {
        Some(dec_val(s))
    } else {
        None
    }
}

proof fn lemma_dec_val_nonneg(s: Seq<char>)
    requires
        all_dec_digits(s),
    ensures
        dec_val(s) >= 0,
    decreases s.len(),
{
    if s.len() > 0 {
        assert(all_dec_digits(s.drop_last()));
        lemma_dec_val_nonneg(s.drop_last());
    }
}

proof fn lemma_dec_val_prefix_le(s: Seq<char>, i: int)
    requires
        all_dec_digits(s),
        0 <= i <= s.len(),
    ensures
        dec_val(s.take(i)) <= dec_val(s),
    decreases s.len() - i,
{
    if i < s.len() {
        let p = s.take(i);
        let q = s.take(i + 1);
        assert(q.drop_last() =~= p);
        assert(q.last() == s[i]);
        assert(all_dec_digits(p));
        lemma_dec_val_nonneg(p);
        assert(dec_val(q) == dec_val(p) * 10 + digit_val(s[i]));
        assert(dec_val(p) * 10 >= dec_val(p));
        lemma_dec_val_prefix_le(s, i + 1);
    } else {
        assert(s.take(i) =~= s);
    }
}

/// Reads an unsigned decimal numeral. Returns the value exactly when the
/// text is one or more digits and the value fits; `None` otherwise.
pub fn parse_u64(s: &str) -> (r: Option<u64>)
    ensures
        r matches Some(v) ==> s@.len() >= 1 && all_dec_digits(s@) && v as int == dec_val(s@),
        r is None ==> !(s@.len() >= 1 && all_dec_digits(s@) && dec_val(s@) <= u64::MAX),
{
    let n = s.unicode_len();
    if n == 0 {
        return None;
    }
    let mut acc: u64 = 0;
    let mut i: usize = 0;
    while i < n
        invariant
            0 <= i <= n,
            n == s@.len(),
            all_dec_digits(s@.take(i as int)),
            acc as int == dec_val(s@.take(i as int)),
        decreases n - i,
    {
        let c = s.get_char(i);
        let cv = c as u32;
        if cv < 48 || cv > 57 {
            proof {
                assert(!is_dec_digit(s@[i as int]));
            }
            return None;
        }
        let d = (cv - 48) as u64;
        proof {
            assert(s@.take(i + 1).drop_last() =~= s@.take(i as int));
            assert(s@.take(i + 1).last() == s@[i as int]);
            assert(d as int == digit_val(s@[i as int]));
        }
        if acc > (u64::MAX - d) / 10 {
            proof {
                assert(acc as int * 10 + d > u64::MAX) by (nonlinear_arith)
                    requires
                        acc as int > (u64::MAX - d as int) / 10,
                        0 <= d < 10,
                ;
                assert(dec_val(s@.take(i + 1)) > u64::MAX);
                assert(all_dec_digits(s@.take(i + 1)));
                if all_dec_digits(s@) {
                    lemma_dec_val_prefix_le(s@, i + 1);
                }
            }
            return None;
        }
        proof {
            assert(acc as int * 10 + d <= u64::MAX) by (nonlinear_arith)
                requires
                    acc as int <= (u64::MAX - d as int) / 10,
                    0 <= d < 10,
            ;
        }
        acc = acc * 10 + d;
        i = i + 1;
    }
    proof {
        assert(s@.take(n as int) =~= s@);
    }
    Some(acc)
}

/// Reads a signed decimal numeral into an `i64`. Returns the value
/// exactly when the text denotes an integer in range; `None` otherwise.
pub fn parse_i64(s: &str) -> (r: Option<i64>)
    ensures
        r matches Some(v) ==> int_text_val(s@) == Some(v as int),
        r is None ==> !(int_text_val(s@) matches Some(x) && i64::MIN <= x <= i64::MAX),
{
    let n = s.unicode_len();
    if n >= 1 && s.get_char(0) == '-' {
        let t = s.substring_char(1, n);
        match parse_u64(t) {
            Some(mag) => {
                if mag < 9223372036854775808u64 {
                    proof {
                        assert(int_text_val(s@) == Some(-dec_val(t@)));
                    }
                    Some(-(mag as i64))
                } else if mag == 9223372036854775808u64 {
                    proof {
                        assert(int_text_val(s@) == Some(-dec_val(t@)));
                    }
                    Some(i64::MIN)
                } else {
                    proof {
                        assert(int_text_val(s@) == Some(-dec_val(t@)));
                    }
                    None
                }
            },
            None => {
                proof {
                    if int_text_val(s@) matches Some(x) && i64::MIN <= x <= i64::MAX {
                        lemma_dec_val_nonneg(t@);
                        assert(dec_val(t@) <= u64::MAX);
                    }
                }
                None
            },
        }
    } else {
        match parse_u64(s) {
            Some(v) => {
                if v <= i64::MAX as u64 {
                    Some(v as i64)
                } else {
                    None
                }
            },
            None => {
                proof {
                    if int_text_val(s@) matches Some(x) && i64::MIN <= x <= i64::MAX {
                        assert(dec_val(s@) <= u64::MAX);
                    }
                }
                None
            },
        }
    }
}

} // verus!
