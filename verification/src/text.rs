//! Helpers on text: comparison, and reading a decimal integer.

use vstd::prelude::*;
use vstd::string::*;

verus! {

/// Whether two strings hold the same characters.
pub fn str_eq(a: &str, b: &str) -> (r: bool)
    ensures
        r == (a@ == b@),
{
    let left = a.to_owned();
    let right = b.to_owned();
    left == right
}

/// Whether the character is one of `0` to `9`.
pub open spec fn is_digit(c: char) -> bool {
    '0' <= c <= '9'
}

/// Whether every character is a digit.
pub open spec fn all_digits(s: Seq<char>) -> bool {
    forall|i: int| 0 <= i < s.len() ==> is_digit(#[trigger] s[i])
}

/// The number that a digit stands for; zero for any other character.
pub open spec fn digit_value(c: char) -> nat {
    if is_digit(c) {
        (c as int - '0' as int) as nat
    } else {
        0
    }
}

/// The number that a run of digits writes in base ten.
pub open spec fn digits_value(s: Seq<char>) -> nat
    decreases s.len(),
{
    if s.len() == 0 {
        0
    } else {
        digits_value(s.drop_last()) * 10 + digit_value(s.last())
    }
}

/// The number that a non-empty run of digits writes; nothing for any other text.
pub open spec fn unsigned_value(s: Seq<char>) -> Option<int> {
    if s.len() > 0 && all_digits(s) {
        Some(digits_value(s) as int)
    } else {
        None
    }
}

/// The integer that the text writes: digits, after `+` or nothing, or, where
/// `signed`, after `-`. Nothing for any other text.
pub open spec fn decimal_value(s: Seq<char>, signed: bool) -> Option<int> {
    if s.len() > 0 && s[0] == '+' {
        unsigned_value(s.skip(1))
    } else if s.len() > 0 && s[0] == '-' && signed {
        match unsigned_value(s.skip(1)) {
            Some(v) => Some(-v),
            None => None,
        }
    } else {
        unsigned_value(s)
    }
}

/// The codes of the characters `+`, `-`, `0` and `9`.
const PLUS: u8 = 43;

const MINUS: u8 = 45;

const ZERO: u8 = 48;

const NINE: u8 = 57;

/// The largest magnitude that [`scan_decimal`] gives exactly.
pub const SCAN_LIMIT: u128 = 0xffff_ffff_ffff_ffff;

/// What a text is, read as a decimal integer.
#[derive(Clone, Copy, Debug, PartialEq, Eq)]
pub enum Scanned {
    /// The text writes no integer.
    Malformed,
    /// The text writes this integer, of a magnitude up to [`SCAN_LIMIT`].
    Value(i128),
    /// The text writes an integer above [`SCAN_LIMIT`].
    Above,
    /// The text writes an integer below minus [`SCAN_LIMIT`].
    Below,
}

/// What [`scan_decimal`] gives for the text.
pub open spec fn scanned(s: Seq<char>, signed: bool) -> Scanned {
    match decimal_value(s, signed) {
        None => Scanned::Malformed,
        Some(v) => if v > SCAN_LIMIT {
            Scanned::Above
        } else if v < -(SCAN_LIMIT as int) {
            Scanned::Below
        } else {
            Scanned::Value(v as i128)
        },
    }
}

/// A run of digits that grows by one digit grows tenfold and by that digit.
proof fn lemma_digits_push(s: Seq<char>, from: int, to: int)
    requires
        0 <= from <= to < s.len(),
    ensures
        digits_value(s.subrange(from, to + 1)) == digits_value(s.subrange(from, to)) * 10
            + digit_value(s[to]),
        digits_value(s.subrange(from, from)) == 0,
{
    assert(s.subrange(from, to + 1).drop_last() =~= s.subrange(from, to));
    assert(s.subrange(from, to + 1).last() == s[to]);
}

/// Reads the text as a decimal integer.
pub fn scan_decimal(text: &str, signed: bool) -> (r: Scanned)
    ensures
        r == scanned(text@, signed),
{
    if !text.is_ascii() {
        proof {
            let s = text@;
            let k = choose|k: int| 0 <= k < s.len() && !('\0' <= #[trigger] s[k] <= '\u{7f}');
            assert(0 <= k < s.len() && !is_digit(s[k]));
            if k > 0 {
                assert(s.skip(1)[k - 1] == s[k]);
            }
        }
        return Scanned::Malformed;
    }
    let n = text.unicode_len();
    if n == 0 {
        return Scanned::Malformed;
    }
    let first = text.get_ascii(0);
    let negative = signed && first == MINUS;
    let start: usize = if first == PLUS || negative {
        1
    } else {
        0
    };
    if start == n {
        return Scanned::Malformed;
    }
    let mut acc: u128 = 0;
    let mut beyond = false;
    let mut i: usize = start;
    while i < n
        invariant
            text.is_ascii(),
            n == text@.len(),
            start <= i <= n,
            start == 0 ==> text@[0] != '+' && !(text@[0] == '-' && signed),
            start != 0 ==> start == 1 && (text@[0] == '+' || (text@[0] == '-' && signed)),
            forall|j: int| start <= j < i ==> is_digit(#[trigger] text@[j]),
            !beyond ==> acc == digits_value(text@.subrange(start as int, i as int)) && acc
                <= SCAN_LIMIT,
            beyond ==> digits_value(text@.subrange(start as int, i as int)) > SCAN_LIMIT,
        decreases n - i,
    {
        let b = text.get_ascii(i);
        proof {
            lemma_digits_push(text@, start as int, i as int);
        }
        if b < ZERO || b > NINE {
            proof {
                let s = text@;
                assert(!is_digit(s[i as int]));
                if start == 1 {
                    assert(s.skip(1)[i - 1] == s[i as int]);
                }
            }
            return Scanned::Malformed;
        }
        if !beyond {
            let next: u128 = acc * 10 + (b - ZERO) as u128;
            if next > SCAN_LIMIT {
                beyond = true;
            } else {
                acc = next;
            }
        }
        i += 1;
    }
    proof {
        let s = text@;
        let digits = s.subrange(start as int, n as int);
        assert(all_digits(digits)) by {
            assert forall|j: int| 0 <= j < digits.len() implies is_digit(#[trigger] digits[j]) by {
                assert(digits[j] == s[j + start]);
            }
        }
        if start == 1 {
            assert(s.skip(1) =~= digits);
        } else {
            assert(s =~= digits);
            assert(s[0] != '+');
            assert(!(s[0] == '-' && signed));
        }
    }
    if beyond {
        if negative {
            Scanned::Below
        } else {
            Scanned::Above
        }
    } else if negative {
        Scanned::Value(-(acc as i128))
    } else {
        Scanned::Value(acc as i128)
    }
}

/// The digit that writes a number below ten.
pub open spec fn digit_char(d: nat) -> char {
    if d == 0 {
        '0'
    } else if d == 1 {
        '1'
    } else if d == 2 {
        '2'
    } else if d == 3 {
        '3'
    } else if d == 4 {
        '4'
    } else if d == 5 {
        '5'
    } else if d == 6 {
        '6'
    } else if d == 7 {
        '7'
    } else if d == 8 {
        '8'
    } else {
        '9'
    }
}

/// The digits that write a natural number in base ten, without leading
/// zeros.
pub open spec fn nat_digits(n: nat) -> Seq<char>
    decreases n,
{
    if n < 10 {
        seq![digit_char(n)]
    } else {
        nat_digits(n / 10).push(digit_char(n % 10))
    }
}

/// The text that writes an integer in base ten: its digits, after `-` where
/// it is below zero.
pub open spec fn decimal_text(n: int) -> Seq<char> {
    if n < 0 {
        seq!['-'] + nat_digits((-n) as nat)
    } else {
        nat_digits(n as nat)
    }
}

/// The text of one digit.
fn digit_str(d: u128) -> (r: &'static str)
    requires
        d < 10,
    ensures
        r@ == seq![digit_char(d as nat)],
{
    proof {
        reveal_strlit("0");
        reveal_strlit("1");
        reveal_strlit("2");
        reveal_strlit("3");
        reveal_strlit("4");
        reveal_strlit("5");
        reveal_strlit("6");
        reveal_strlit("7");
        reveal_strlit("8");
        reveal_strlit("9");
    }
    let r = if d == 0 {
        "0"
    } else if d == 1 {
        "1"
    } else if d == 2 {
        "2"
    } else if d == 3 {
        "3"
    } else if d == 4 {
        "4"
    } else if d == 5 {
        "5"
    } else if d == 6 {
        "6"
    } else if d == 7 {
        "7"
    } else if d == 8 {
        "8"
    } else {
        "9"
    };
    assert(r@ =~= seq![digit_char(d as nat)]);
    r
}

/// Appends the digits of a natural number to a text.
fn push_digits(text: &mut String, n: u128)
    ensures
        final(text)@ == old(text)@ + nat_digits(n as nat),
    decreases n,
{
    if n >= 10 {
        push_digits(text, n / 10);
    }
    text.append(digit_str(n % 10));
    assert(text@ =~= old(text)@ + nat_digits(n as nat));
}

/// Writes an integer in base ten.
pub fn integer_text(n: i128) -> (r: String)
    ensures
        r@ == decimal_text(n as int),
{
    let mut text = String::new();
    if n < 0 {
        proof {
            reveal_strlit("-");
        }
        text.append("-");
        let magnitude: u128 = (-(n + 1)) as u128 + 1;
        push_digits(&mut text, magnitude);
        assert(text@ =~= decimal_text(n as int));
    } else {
        push_digits(&mut text, n as u128);
        assert(text@ =~= decimal_text(n as int));
    }
    text
}

} // verus!
