//! Decimal digit strings: rendering unsigned integers and parsing channel
//! labels, with exact specifications relating both directions.

use vstd::prelude::*;
use vstd::string::*;

verus! {

/// The character for a single decimal digit value.
pub open spec fn digit_char(d: nat) -> char {
    if d == 0 {
        '0'
    } else if d == 1 {
        '1'
    } else if d == 2 {
        '2'
    } else if d == 3 {
        '3'
    } else if d == 4 {
        '4'
    } else if d == 5 {
        '5'
    } else if d == 6 {
        '6'
    } else if d == 7 {
        '7'
    } else if d == 8 {
        '8'
    } else {
        '9'
    }
}

/// Whether a character is an ASCII decimal digit.
pub open spec fn is_digit_char(c: char) -> bool {
    48 <= c as int && c as int <= 57
}

/// The numeric value of an ASCII decimal digit character.
pub open spec fn digit_char_val(c: char) -> nat {
    (c as int - 48) as nat
}

/// The canonical decimal representation of `n`, without sign or leading
/// zeros (`0` itself is rendered as "0").
pub open spec fn dec_rep(n: nat) -> Seq<char>
    decreases n,
{
    if n < 10 {
        seq![digit_char(n)]
    } else {
        dec_rep(n / 10).push(digit_char(n % 10))
    }
}

/// Whether every character of `s` is an ASCII decimal digit.
pub open spec fn all_digits(s: Seq<char>) -> bool {
    forall|i: int| 0 <= i < s.len() ==> is_digit_char(#[trigger] s[i])
}

/// The value of a digit string read in base 10.
pub open spec fn digits_value(s: Seq<char>) -> nat
    decreases s.len(),
{
    if s.len() == 0 {
        0
    } else {
        digits_value(s.drop_last()) * 10 + digit_char_val(s.last())
    }
}

proof fn lemma_digit_char_roundtrip(d: nat)
    requires
        d < 10,
    ensures
        is_digit_char(digit_char(d)),
        digit_char_val(digit_char(d)) == d,
{
}

/// The decimal representation of a number is a non-empty digit string whose
/// value is the number itself.
pub proof fn lemma_dec_rep_value(n: nat)
    ensures
        dec_rep(n).len() >= 1,
        all_digits(dec_rep(n)),
        digits_value(dec_rep(n)) == n,
    decreases n,
{
    if n < 10 {
        lemma_digit_char_roundtrip(n);
        assert(dec_rep(n) =~= seq![digit_char(n)]);
        assert(dec_rep(n).drop_last() =~= Seq::<char>::empty());
        assert(dec_rep(n).last() == digit_char(n));
        assert(digits_value(Seq::<char>::empty()) == 0);
        assert(digits_value(dec_rep(n)) == 0 * 10 + digit_char_val(digit_char(n)));
    } else {
        lemma_dec_rep_value(n / 10);
        lemma_digit_char_roundtrip(n % 10);
        let prefix = dec_rep(n / 10);
        let whole = prefix.push(digit_char(n % 10));
        assert(whole.drop_last() =~= prefix);
        assert(whole.last() == digit_char(n % 10));
        assert(digits_value(whole) == (n / 10) * 10 + n % 10);
        assert((n / 10) * 10 + n % 10 == n) by (nonlinear_arith);
        assert forall|i: int| 0 <= i < whole.len() implies is_digit_char(#[trigger] whole[i]) by {
            if i < prefix.len() {
                assert(whole[i] == prefix[i]);
            } else {
                assert(whole[i] == digit_char(n % 10));
            }
        }
    }
}

/// A single-character string slice for each decimal digit value.
pub fn digit_str(d: u64) -> (r: &'static str)
    requires
        d < 10,
    ensures
        r@ =~= seq![digit_char(d as nat)],
{
    proof {
        reveal_strlit("0");
        reveal_strlit("1");
        reveal_strlit("2");
        reveal_strlit("3");
        reveal_strlit("4");
        reveal_strlit("5");
        reveal_strlit("6");
        reveal_strlit("7");
        reveal_strlit("8");
        reveal_strlit("9");
    }
    match d {
        0 => "0",
        1 => "1",
        2 => "2",
        3 => "3",
        4 => "4",
        5 => "5",
        6 => "6",
        7 => "7",
        8 => "8",
        _ => "9",
    }
}

/// How parsing a decimal string can fail.  The display messages are the
/// ones a user of the instrument sees next to a rejected channel label.
#[derive(Clone, Copy, Debug, PartialEq, Eq, Structural)]
pub enum ParseNumberError {
    /// The input was empty.
    Empty,
    /// A character other than an ASCII digit was found.
    InvalidDigit,
    /// The digits name a value above `usize::MAX`.
    PosOverflow,
}

/// The display message of each parse failure.
pub open spec fn parse_error_message(e: ParseNumberError) -> Seq<char> {
    match e {
        ParseNumberError::Empty => "cannot parse integer from empty string"@,
        ParseNumberError::InvalidDigit => "invalid digit found in string"@,
        ParseNumberError::PosOverflow => "number too large to fit in target type"@,
    }
}

/// Renders the display message of a parse failure.
pub fn parse_error_message_string(e: ParseNumberError) -> (r: String)
    ensures
        r@ == parse_error_message(e),
{
    match e {
        ParseNumberError::Empty => String::from_str("cannot parse integer from empty string"),
        ParseNumberError::InvalidDigit => String::from_str("invalid digit found in string"),
        ParseNumberError::PosOverflow => String::from_str(
            "number too large to fit in target type",
        ),
    }
}

/// The input with one leading `'+'` sign stripped, as unsigned decimal
/// parsing accepts it.
pub open spec fn unsigned_body(s: Seq<char>) -> Seq<char> {
    if s.len() > 0 && s[0] == '+' {
        s.drop_first()
    } else {
        s
    }
}

/// The index of the first character that is not an ASCII digit, or the
/// length of the string when all characters are digits.
pub open spec fn first_non_digit(s: Seq<char>) -> int
    decreases s.len(),
{
    if s.len() == 0 {
        0
    } else if !is_digit_char(s[0]) {
        0
    } else {
        1 + first_non_digit(s.drop_first())
    }
}

/// Everything before the first non-digit is a digit, the character there
/// (when the string has one) is not, and an all-digit string has none.
pub proof fn lemma_first_non_digit(s: Seq<char>)
    ensures
        0 <= first_non_digit(s) <= s.len(),
        forall|j: int| 0 <= j < first_non_digit(s) ==> is_digit_char(#[trigger] s[j]),
        first_non_digit(s) < s.len() ==> !is_digit_char(s[first_non_digit(s)]),
        all_digits(s) ==> first_non_digit(s) == s.len(),
    decreases s.len(),
{
    if s.len() == 0 {
    } else if !is_digit_char(s[0]) {
    } else {
        let t = s.drop_first();
        lemma_first_non_digit(t);
        assert forall|j: int| 0 <= j < first_non_digit(s) implies is_digit_char(
            #[trigger] s[j],
        ) by {
            if j > 0 {
                assert(s[j] == t[j - 1]);
            }
        }
        if first_non_digit(s) < s.len() {
            assert(s[first_non_digit(s)] == t[first_non_digit(t)]);
        }
        if all_digits(s) {
            assert forall|j: int| 0 <= j < t.len() implies is_digit_char(#[trigger] t[j]) by {
                assert(t[j] == s[j + 1]);
            }
        }
    }
}

/// Longer digit prefixes never name smaller values.
pub proof fn lemma_digits_value_monotone(s: Seq<char>, i: int, j: int)
    requires
        0 <= i <= j <= s.len(),
    ensures
        digits_value(s.take(i)) <= digits_value(s.take(j)),
    decreases j - i,
{
    if i < j {
        lemma_digits_value_monotone(s, i, j - 1);
        let p = s.take(j);
        assert(p.drop_last() =~= s.take(j - 1));
        assert(digits_value(s.take(j - 1)) * 10 >= digits_value(s.take(j - 1)))
            by (nonlinear_arith);
    }
}

/// What parsing a decimal string as a `usize` returns: the value of the
/// digits after an optional leading `'+'`, or the failure that unsigned
/// decimal parsing reports, in the order a left-to-right scan finds it
/// (an overflow among the leading digits is reported before a later
/// non-digit character).
pub open spec fn parse_usize_spec(s: Seq<char>) -> Result<usize, ParseNumberError> {
    let b = unsigned_body(s);
    if s.len() == 0 {
        Err(ParseNumberError::Empty)
    } else if b.len() == 0 {
        Err(ParseNumberError::InvalidDigit)
    } else if digits_value(b.take(first_non_digit(b))) > usize::MAX {
        Err(ParseNumberError::PosOverflow)
    } else if first_non_digit(b) < b.len() {
        Err(ParseNumberError::InvalidDigit)
    } else {
        Ok(digits_value(b) as usize)
    }
}

/// Parses a decimal string as a `usize`, as `str::parse` does.
pub fn parse_usize(s: &str) -> (r: Result<usize, ParseNumberError>)
    ensures
        r == parse_usize_spec(s@),
{
    let n = s.unicode_len();
    if n == 0 {
        return Err(ParseNumberError::Empty);
    }
    let start: usize = if s.get_char(0) == '+' {
        1
    } else {
        0
    };
    let ghost b = unsigned_body(s@);
    proof {
        assert(b =~= s@.subrange(start as int, n as int));
        lemma_first_non_digit(b);
    }
    if n == start {
        return Err(ParseNumberError::InvalidDigit);
    }
    let mut acc: usize = 0;
    let mut i: usize = start;
    while i < n
        invariant
            start <= i <= n,
            n == s@.len(),
            start + b.len() == n,
            b == unsigned_body(s@),
            b =~= s@.subrange(start as int, n as int),
            first_non_digit(b) >= i - start,
            acc == digits_value(b.take(i - start)),
        decreases n - i,
    {
        let c = s.get_char(i);
        let cu = c as u32;
        proof {
            assert(b[i - start] == c);
            lemma_first_non_digit(b);
        }
        if cu < 48 || cu > 57 {
            proof {
                assert(!is_digit_char(c));
                assert(first_non_digit(b) == i - start);
            }
            return Err(ParseNumberError::InvalidDigit);
        }
        let d = (cu - 48) as usize;
        proof {
            assert(is_digit_char(c));
            assert(digit_char_val(c) == d);
            assert(b.take(i - start + 1).drop_last() =~= b.take(i - start));
            assert(b.take(i - start + 1).last() == c);
            assert(first_non_digit(b) >= i - start + 1);
        }
        let stepped = match acc.checked_mul(10) {
            Some(m) => m.checked_add(d),
            None => None,
        };
        match stepped {
            Some(v) => {
                acc = v;
            },
            None => {
                proof {
                    assert(digits_value(b.take(i - start + 1)) > usize::MAX);
                    lemma_digits_value_monotone(b, i - start + 1, first_non_digit(b));
                }
                return Err(ParseNumberError::PosOverflow);
            },
        }
        i = i + 1;
    }
    proof {
        assert(b.take(b.len() as int) =~= b);
        assert(first_non_digit(b) == b.len());
    }
    Ok(acc)
}

/// Renders `n` in decimal.
pub fn u64_to_string(n: u64) -> (r: String)
    ensures
        r@ == dec_rep(n as nat),
    decreases n,
{
    if n < 10 {
        let r = String::from_str(digit_str(n));
        proof {
            assert(r@ =~= dec_rep(n as nat));
        }
        r
    } else {
        let mut s = u64_to_string(n / 10);
        s.append(digit_str(n % 10));
        proof {
            assert(s@ =~= dec_rep(n as nat));
        }
        s
    }
}

} // verus!
