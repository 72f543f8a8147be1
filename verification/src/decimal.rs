//! Integers as decimal text: what a text means as an integer, and the text
//! that an integer is written as.

use vstd::prelude::*;
use vstd::string::StringExecFns;

verus! {

/// Whether a character is one of the ten decimal digits.
pub open spec fn is_digit(c: char) -> bool {
    '0' <= c <= '9'
}

/// What a digit counts for.
pub open spec fn digit_value(c: char) -> nat {
    (c as int - '0' as int) as nat
}

/// Whether a text is made of decimal digits and nothing else.
pub open spec fn all_digits(s: Seq<char>) -> bool {
    forall|i: int| 0 <= i < s.len() ==> is_digit(#[trigger] s[i])
}

/// The number that a run of digits writes, the most significant first.
pub open spec fn digits_value(s: Seq<char>) -> nat
    decreases s.len(),
{
    if s.len() == 0 {
        0
    } else {
        digits_value(s.drop_last()) * 10 + digit_value(s.last())
    }
}

/// Whether a text is one or more decimal digits.
pub open spec fn is_digits(s: Seq<char>) -> bool {
    s.len() > 0 && all_digits(s)
}

/// What a text means as an integer with a sign: a `+` or a `-` may come first,
/// then one or more digits, and nothing else. Space, a sign alone, an
/// underscore or a decimal point make the text mean nothing.
pub open spec fn signed_text_value(s: Seq<char>) -> Option<int> {
    if s.len() > 0 && s[0] == '-' {
        if is_digits(s.skip(1)) {
            Some(-(digits_value(s.skip(1)) as int))
        } else {
            None
        }
    } else {
        unsigned_text_value(s)
    }
}

/// What a text means as an integer without a sign: a `+` may come first, then
/// one or more digits, and nothing else. A `-` makes the text mean nothing,
/// even before a zero.
pub open spec fn unsigned_text_value(s: Seq<char>) -> Option<int> {
    if s.len() > 0 && s[0] == '+' {
        if is_digits(s.skip(1)) {
            Some(digits_value(s.skip(1)) as int)
        } else {
            None
        }
    } else if is_digits(s) {
        Some(digits_value(s) as int)
    } else {
        None
    }
}

/// What a text means as a signed integer between two bounds.
pub open spec fn signed_in_range(s: Seq<char>, min: int, max: int) -> Option<int> {
    match signed_text_value(s) {
        Some(v) => if min <= v <= max {
            Some(v)
        } else {
            None
        },
        None => None,
    }
}

/// What a text means as an unsigned integer up to a bound.
pub open spec fn unsigned_in_range(s: Seq<char>, max: int) -> Option<int> {
    match unsigned_text_value(s) {
        Some(v) => if v <= max {
            Some(v)
        } else {
            None
        },
        None => None,
    }
}

/// The character of a digit.
pub open spec fn digit_char(d: nat) -> char {
    ('0' as int + d) as char
}

/// The digits of a number, the most significant first, with no leading zero
/// but for zero itself.
pub open spec fn decimal(n: nat) -> Seq<char>
    decreases n,
{
    if n < 10 {
        seq![digit_char(n)]
    } else {
        decimal(n / 10).push(digit_char(n % 10))
    }
}

/// The text of an integer: a `-` before what is below zero, then the digits.
pub open spec fn signed_decimal(v: int) -> Seq<char> {
    if v < 0 {
        seq!['-'] + decimal((-v) as nat)
    } else {
        decimal(v as nat)
    }
}

/// A run of digits is worth at least as much as any run it begins with.
pub proof fn lemma_digits_value_grows(s: Seq<char>, k: int)
    requires
        0 <= k <= s.len(),
    ensures
        digits_value(s.take(k)) <= digits_value(s),
    decreases s.len(),
{
    if k == s.len() {
        assert(s.take(k) =~= s);
    } else {
        lemma_digits_value_grows(s.drop_last(), k);
        assert(s.drop_last().take(k) =~= s.take(k));
    }
}

/// The digits of a number are digits, at least one, and are worth the number.
pub proof fn lemma_decimal_digits(n: nat)
    ensures
        is_digits(decimal(n)),
        digits_value(decimal(n)) == n,
    decreases n,
{
    let c = digit_char(n % 10);
    assert(is_digit(c) && digit_value(c) == n % 10);
    if n < 10 {
        let s = seq![c];
        assert(s.drop_last() =~= Seq::<char>::empty());
        assert(digits_value(s.drop_last()) == 0);
        assert(digits_value(s) == n);
    } else {
        lemma_decimal_digits(n / 10);
        let s = decimal(n / 10).push(c);
        assert(s.drop_last() =~= decimal(n / 10));
        assert(all_digits(s)) by {
            assert forall|i: int| 0 <= i < s.len() implies is_digit(#[trigger] s[i]) by {
                if i < s.len() - 1 {
                    assert(s[i] == decimal(n / 10)[i]);
                }
            }
        }
    }
}

/// The text of an integer means that integer, and where the integer is not
/// below zero it means it without a sign as well.
pub proof fn lemma_written_reads_back(v: int)
    ensures
        signed_text_value(signed_decimal(v)) == Some(v),
        v >= 0 ==> unsigned_text_value(signed_decimal(v)) == Some(v),
{
    if v < 0 {
        lemma_decimal_digits((-v) as nat);
        let s = signed_decimal(v);
        assert(s[0] == '-');
        assert(s.skip(1) =~= decimal((-v) as nat));
    } else {
        lemma_decimal_digits(v as nat);
        let s = signed_decimal(v);
        assert(is_digit(s[0]));
    }
}

/// The value of a run of digits, read from the bytes of an ASCII text, as long
/// as it stays within `limit`.
fn parse_digits(
    bytes: &[u8],
    start: usize,
    limit: u128,
    Ghost(s): Ghost<Seq<char>>,
) -> (r: Option<u128>)
    requires
        start <= bytes.len(),
        bytes@.len() == s.len(),
        forall|i: int| 0 <= i < s.len() ==> s[i] as int == #[trigger] bytes@[i] as int,
    ensures
        r == (if is_digits(s.skip(start as int)) && digits_value(s.skip(start as int)) <= limit {
            Some(digits_value(s.skip(start as int)) as u128)
        } else {
            None
        }),
{
    let ghost t = s.skip(start as int);
    if start == bytes.len() {
        return None;
    }
    let mut acc: u128 = 0;
    let mut i: usize = start;
    while i < bytes.len()
        invariant
            start <= i <= bytes.len(),
            bytes@.len() == s.len(),
            t == s.skip(start as int),
            forall|j: int| 0 <= j < s.len() ==> s[j] as int == #[trigger] bytes@[j] as int,
            all_digits(t.take(i - start)),
            acc == digits_value(t.take(i - start)),
            acc <= limit,
        decreases bytes.len() - i,
    {
        let b: u8 = bytes[i];
        let ghost prefix = t.take(i - start + 1);
        proof {
            assert(t[i - start] == s[i as int]);
            assert(prefix.drop_last() =~= t.take(i - start));
            assert(prefix.last() == s[i as int]);
        }
        if b < 0x30 || b > 0x39 {
            proof {
                assert(!is_digit(t[i - start]));
            }
            return None;
        }
        let d: u128 = (b - 0x30) as u128;
        proof {
            assert(is_digit(s[i as int]));
            assert(digit_value(s[i as int]) == d);
            assert(digits_value(prefix) == acc * 10 + d);
            assert(all_digits(prefix)) by {
                assert forall|j: int| 0 <= j < prefix.len() implies is_digit(#[trigger] prefix[j]) by {
                    if j < i - start {
                        assert(prefix[j] == t.take(i - start)[j]);
                    }
                }
            }
        }
        if d > limit || acc > (limit - d) / 10 {
            proof {
                assert(acc * 10 + d > limit);
                if all_digits(t) {
                    lemma_digits_value_grows(t, i - start + 1);
                }
            }
            return None;
        }
        acc = acc * 10 + d;
        i = i + 1;
    }
    proof {
        assert(t.take(i - start) =~= t);
    }
    Some(acc)
}

/// Reads a text as a signed integer between `min` and `max`.
pub fn parse_signed(text: &str, min: i128, max: i128) -> (r: Option<i128>)
    requires
        min <= 0 <= max,
    ensures
        r == (match signed_in_range(text@, min as int, max as int) {
            Some(v) => Some(v as i128),
            None => None,
        }),
{
    if !text.is_ascii() {
        proof {
            lemma_not_ascii_means_nothing(text@);
        }
        return None;
    }
    proof {
        vstd::string::is_ascii_spec_bytes(text);
        vstd::utf8::is_ascii_chars_nat_bound(text@);
    }
    let bytes = text.as_bytes();
    if bytes.len() == 0 {
        return None;
    }
    let first: u8 = bytes[0];
    if first == 0x2d {
        assert(text@[0] == '-');
        let limit: u128 = if min == i128::MIN {
            0x8000_0000_0000_0000_0000_0000_0000_0000u128
        } else {
            (-min) as u128
        };
        match parse_digits(bytes, 1, limit, Ghost(text@)) {
            Some(m) => {
                if m == 0x8000_0000_0000_0000_0000_0000_0000_0000u128 {
                    Some(i128::MIN)
                } else {
                    Some(-(m as i128))
                }
            },
            None => None,
        }
    } else {
        assert(text@[0] != '-');
        let start: usize = if first == 0x2b {
            1
        } else {
            0
        };
        proof {
            assert(first == 0x2b <==> text@[0] == '+');
            assert(text@.skip(0) =~= text@);
        }
        match parse_digits(bytes, start, max as u128, Ghost(text@)) {
            Some(m) => Some(m as i128),
            None => None,
        }
    }
}

/// Reads a text as an unsigned integer up to `max`.
pub fn parse_unsigned(text: &str, max: u128) -> (r: Option<u128>)
    ensures
        r == (match unsigned_in_range(text@, max as int) {
            Some(v) => Some(v as u128),
            None => None,
        }),
{
    if !text.is_ascii() {
        proof {
            lemma_not_ascii_means_nothing(text@);
        }
        return None;
    }
    proof {
        vstd::string::is_ascii_spec_bytes(text);
        vstd::utf8::is_ascii_chars_nat_bound(text@);
    }
    let bytes = text.as_bytes();
    if bytes.len() == 0 {
        return None;
    }
    let first: u8 = bytes[0];
    let start: usize = if first == 0x2b {
        1
    } else {
        0
    };
    proof {
        assert(first == 0x2b <==> text@[0] == '+');
        assert(text@.skip(0) =~= text@);
    }
    parse_digits(bytes, start, max, Ghost(text@))
}

/// A text with a character outside ASCII means no integer.
pub proof fn lemma_not_ascii_means_nothing(s: Seq<char>)
    requires
        !vstd::utf8::is_ascii_chars(s),
    ensures
        signed_text_value(s) is None,
        unsigned_text_value(s) is None,
{
    let i = choose|i: int| 0 <= i < s.len() && !('\0' <= #[trigger] s[i] <= '\u{7f}');
    assert(!is_digit(s[i]));
    assert(s[i] != '+' && s[i] != '-');
    if i > 0 {
        assert(s.skip(1)[i - 1] == s[i]);
    }
}

/// The text of one digit.
fn digit_text(d: u8) -> (r: &'static str)
    requires
        d < 10,
    ensures
        r@ == seq![digit_char(d as nat)],
{
    proof {
        reveal_strlit("0");
        reveal_strlit("1");
        reveal_strlit("2");
        reveal_strlit("3");
        reveal_strlit("4");
        reveal_strlit("5");
        reveal_strlit("6");
        reveal_strlit("7");
        reveal_strlit("8");
        reveal_strlit("9");
    }
    let r = match d {
        0 => "0",
        1 => "1",
        2 => "2",
        3 => "3",
        4 => "4",
        5 => "5",
        6 => "6",
        7 => "7",
        8 => "8",
        _ => "9",
    };
    assert(r@ =~= seq![digit_char(d as nat)]);
    r
}

/// Writes the digits of a number at the end of a text.
pub fn push_decimal(out: &mut String, n: u128)
    ensures
        final(out)@ == old(out)@ + decimal(n as nat),
    decreases n,
{
    if n >= 10 {
        push_decimal(out, n / 10);
    }
    let d: u8 = (n % 10) as u8;
    let ghost before = out@;
    out.append(digit_text(d));
    proof {
        if n >= 10 {
            assert(out@ =~= old(out)@ + decimal((n / 10) as nat).push(digit_char((n % 10) as nat)));
        }
    }
}

/// The text of an unsigned integer.
pub fn unsigned_to_string(n: u128) -> (r: String)
    ensures
        r@ == decimal(n as nat),
{
    let mut out = String::new();
    push_decimal(&mut out, n);
    assert(out@ =~= decimal(n as nat));
    out
}

/// The text of a signed integer.
pub fn signed_to_string(v: i128) -> (r: String)
    ensures
        r@ == signed_decimal(v as int),
{
    if v < 0 {
        let m: u128 = if v == i128::MIN {
            0x8000_0000_0000_0000_0000_0000_0000_0000u128
        } else {
            (-v) as u128
        };
        proof {
            reveal_strlit("-");
        }
        let mut out = String::from_str("-");
        push_decimal(&mut out, m);
        assert(out@ =~= signed_decimal(v as int));
        out
    } else {
        unsigned_to_string(v as u128)
    }
}

} // verus!
