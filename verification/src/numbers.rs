//! Numbers as text: decimal printing, integer literals and decimal numbers.

use vstd::prelude::*;
use vstd::string::*;

verus! {

/// Whether a character is one of `0` to `9`.
pub open spec fn is_digit(c: char) -> bool {
    '0' <= c && c <= '9'
}

/// The lowercase hexadecimal digit for a value below sixteen.
pub open spec fn hex_digit(n: int) -> char {
    seq!['0', '1', '2', '3', '4', '5', '6', '7', '8', '9', 'a', 'b', 'c', 'd', 'e', 'f'][n]
}

/// The decimal digit for a value below ten.
pub open spec fn digit_char(n: nat) -> char {
    seq!['0', '1', '2', '3', '4', '5', '6', '7', '8', '9'][n as int]
}

/// A natural number in decimal, without sign or leading zeros.
pub open spec fn decimal_text(n: nat) -> Seq<char>
    decreases n,
{
    if n < 10 {
        seq![digit_char(n)]
    } else {
        decimal_text(n / 10).push(digit_char(n % 10))
    }
}

/// Whether a character is `+` or `-`.
pub open spec fn is_sign(c: char) -> bool {
    c == '+' || c == '-'
}

/// How many digits stand in a row from a position on.
pub open spec fn digit_run(s: Seq<char>, from: int) -> int
    decreases s.len() - from,
{
    if 0 <= from < s.len() && is_digit(s[from]) {
        1 + digit_run(s, from + 1)
    } else {
        0
    }
}

/// The number that a row of digits spells.
pub open spec fn digits_value(s: Seq<char>) -> nat
    decreases s.len(),
{
    if s.len() == 0 {
        0
    } else {
        digits_value(s.drop_last()) * 10 + (s.last() as nat - '0' as nat) as nat
    }
}

/// The value of an integer literal: an optional `-` and at least one digit,
/// nothing else. `None` for any other text.
pub open spec fn integer_of(s: Seq<char>) -> Option<int> {
    let start: int = if s.len() > 0 && s[0] == '-' { 1 } else { 0 };
    if start < s.len() && start + digit_run(s, start) == s.len() {
        let magnitude = digits_value(s.skip(start)) as int;
        Some(if start == 1 { -magnitude } else { magnitude })
    } else {
        None
    }
}

/// Whether a character is a given letter in either case.
pub open spec fn is_letter(c: char, small: char, capital: char) -> bool {
    c == small || c == capital
}

/// Whether the text from a position on spells `inf`, `infinity` or `nan`, in
/// any mix of cases.
pub open spec fn is_special_from(s: Seq<char>, from: int) -> bool {
    let n = s.len() - from;
    ||| (n == 3 && is_letter(s[from], 'i', 'I') && is_letter(s[from + 1], 'n', 'N') && is_letter(
        s[from + 2],
        'f',
        'F',
    ))
    ||| (n == 3 && is_letter(s[from], 'n', 'N') && is_letter(s[from + 1], 'a', 'A') && is_letter(
        s[from + 2],
        'n',
        'N',
    ))
    ||| (n == 8 && is_letter(s[from], 'i', 'I') && is_letter(s[from + 1], 'n', 'N') && is_letter(
        s[from + 2],
        'f',
        'F',
    ) && is_letter(s[from + 3], 'i', 'I') && is_letter(s[from + 4], 'n', 'N') && is_letter(
        s[from + 5],
        'i',
        'I',
    ) && is_letter(s[from + 6], 't', 'T') && is_letter(s[from + 7], 'y', 'Y'))
}

/// Whether the text from a position to its end is an exponent: `e` or `E`,
/// an optional sign, at least one digit.
pub open spec fn is_exponent_from(s: Seq<char>, from: int) -> bool {
    let digits: int = if from + 1 < s.len() && is_sign(s[from + 1]) { from + 2 } else { from + 1 };
    &&& 0 <= from < s.len()
    &&& is_letter(s[from], 'e', 'E')
    &&& digit_run(s, digits) > 0
    &&& digits + digit_run(s, digits) == s.len()
}

/// Whether the text from a position to its end is a number: digits with at
/// most one `.` among them, at least one digit in all, then an optional
/// exponent.
pub open spec fn is_number_from(s: Seq<char>, from: int) -> bool {
    let whole = digit_run(s, from);
    let dot = from + whole;
    let has_dot = dot < s.len() && s[dot] == '.';
    let fraction = if has_dot { digit_run(s, dot + 1) } else { 0 };
    let end = if has_dot { dot + 1 + fraction } else { dot };
    whole + fraction > 0 && (end == s.len() || is_exponent_from(s, end))
}

/// Whether a text is a decimal number as Rust's floating-point parser takes
/// it: an optional sign, then a number or one of `inf`, `infinity`, `nan`.
pub open spec fn is_decimal_text(s: Seq<char>) -> bool {
    let start: int = if s.len() > 0 && is_sign(s[0]) { 1 } else { 0 };
    is_special_from(s, start) || is_number_from(s, start)
}

/// Whether bytes hold the characters of a text, one byte for each.
pub open spec fn spells(bytes: Seq<u8>, s: Seq<char>) -> bool {
    &&& bytes.len() == s.len()
    &&& forall|i: int| 0 <= i < s.len() ==> (#[trigger] bytes[i]) as int == s[i] as int
}

proof fn ascii_bytes_spell(text: &str)
    requires
        text.is_ascii(),
    ensures
        spells(text.spec_bytes(), text@),
{
    broadcast use vstd::string::is_ascii_spec_bytes;
    broadcast use vstd::utf8::is_ascii_chars_nat_bound;

    assert forall|i: int| 0 <= i < text@.len() implies (#[trigger] text.spec_bytes()[i]) as int
        == text@[i] as int by {
        assert((text@[i] as nat) < 128);
    }
}

proof fn digit_run_holds_digits(s: Seq<char>, from: int, k: int)
    requires
        0 <= from <= k < from + digit_run(s, from),
    ensures
        k < s.len(),
        is_digit(s[k]),
    decreases k - from,
{
    if from < k {
        digit_run_holds_digits(s, from + 1, k);
    }
}

proof fn non_ascii_is_no_decimal(s: Seq<char>)
    requires
        !vstd::utf8::is_ascii_chars(s),
    ensures
        !is_decimal_text(s),
        integer_of(s) is None,
{
    if is_decimal_text(s) {
        let start: int = if s.len() > 0 && is_sign(s[0]) { 1 } else { 0 };
        assert forall|k: int| 0 <= k < s.len() implies '\0' <= #[trigger] s[k] <= '\u{7f}' by {
            if !is_special_from(s, start) {
                let whole = digit_run(s, start);
                let dot = start + whole;
                let has_dot = dot < s.len() && s[dot] == '.';
                let fraction = if has_dot { digit_run(s, dot + 1) } else { 0 };
                let end = if has_dot { dot + 1 + fraction } else { dot };
                if start <= k < dot {
                    digit_run_holds_digits(s, start, k);
                } else if has_dot && dot < k < end {
                    digit_run_holds_digits(s, dot + 1, k);
                } else if k > end {
                    let digits: int = if end + 1 < s.len() && is_sign(s[end + 1]) {
                        end + 2
                    } else {
                        end + 1
                    };
                    if k >= digits {
                        digit_run_holds_digits(s, digits, k);
                    }
                }
            }
        }
    }
}

fn digit_end(bytes: &[u8], from: usize, Ghost(s): Ghost<Seq<char>>) -> (end: usize)
    requires
        spells(bytes@, s),
        from <= bytes.len(),
    ensures
        end == from + digit_run(s, from as int),
        from <= end <= bytes.len(),
{
    let mut i: usize = from;
    while i < bytes.len() && 48 <= bytes[i] && bytes[i] <= 57
        invariant
            spells(bytes@, s),
            from <= i <= bytes.len(),
            digit_run(s, from as int) == (i - from) + digit_run(s, i as int),
        decreases bytes.len() - i,
    {
        i += 1;
    }
    i
}

fn letter_at(bytes: &[u8], at: usize, small: u8, capital: u8) -> (r: bool)
    requires
        at < bytes.len(),
    ensures
        r == (bytes[at as int] == small || bytes[at as int] == capital),
{
    bytes[at] == small || bytes[at] == capital
}

fn special_from(bytes: &[u8], from: usize, Ghost(s): Ghost<Seq<char>>) -> (r: bool)
    requires
        spells(bytes@, s),
        from <= bytes.len(),
    ensures
        r == is_special_from(s, from as int),
{
    let n = bytes.len() - from;
    if n == 3 {
        (letter_at(bytes, from, 105, 73) && letter_at(bytes, from + 1, 110, 78) && letter_at(
            bytes,
            from + 2,
            102,
            70,
        )) || (letter_at(bytes, from, 110, 78) && letter_at(bytes, from + 1, 97, 65) && letter_at(
            bytes,
            from + 2,
            110,
            78,
        ))
    } else if n == 8 {
        letter_at(bytes, from, 105, 73) && letter_at(bytes, from + 1, 110, 78) && letter_at(
            bytes,
            from + 2,
            102,
            70,
        ) && letter_at(bytes, from + 3, 105, 73) && letter_at(bytes, from + 4, 110, 78)
            && letter_at(bytes, from + 5, 105, 73) && letter_at(bytes, from + 6, 116, 84)
            && letter_at(bytes, from + 7, 121, 89)
    } else {
        false
    }
}

fn exponent_from(bytes: &[u8], from: usize, Ghost(s): Ghost<Seq<char>>) -> (r: bool)
    requires
        spells(bytes@, s),
        from < bytes.len(),
    ensures
        r == is_exponent_from(s, from as int),
{
    if !letter_at(bytes, from, 101, 69) {
        return false;
    }
    let digits: usize = if from + 1 < bytes.len() && (bytes[from + 1] == 43 || bytes[from + 1]
        == 45) {
        from + 2
    } else {
        from + 1
    };
    let end = digit_end(bytes, digits, Ghost(s));
    end > digits && end == bytes.len()
}

fn number_from(bytes: &[u8], from: usize, Ghost(s): Ghost<Seq<char>>) -> (r: bool)
    requires
        spells(bytes@, s),
        from <= bytes.len(),
    ensures
        r == is_number_from(s, from as int),
{
    let dot = digit_end(bytes, from, Ghost(s));
    let has_dot = dot < bytes.len() && bytes[dot] == 46;
    let end = if has_dot { digit_end(bytes, dot + 1, Ghost(s)) } else { dot };
    let digits = if has_dot { end - from - 1 } else { end - from };
    if digits == 0 {
        false
    } else if end == bytes.len() {
        true
    } else {
        exponent_from(bytes, end, Ghost(s))
    }
}

proof fn digits_value_grows(s: Seq<char>, i: int, j: int)
    requires
        0 <= i <= j <= s.len(),
    ensures
        digits_value(s.take(i)) <= digits_value(s.take(j)),
    decreases j - i,
{
    if i < j {
        digits_value_grows(s, i, j - 1);
        assert(s.take(j).drop_last() =~= s.take(j - 1));
    }
}

fn magnitude(bytes: &[u8], from: usize, Ghost(s): Ghost<Seq<char>>) -> (r: Option<u128>)
    requires
        spells(bytes@, s),
        from <= bytes.len(),
        from + digit_run(s, from as int) == s.len(),
    ensures
        match r {
            Some(v) => v == digits_value(s.skip(from as int)),
            None => digits_value(s.skip(from as int)) > u128::MAX,
        },
{
    let ghost tail = s.skip(from as int);
    let mut value: u128 = 0;
    let mut i: usize = from;
    while i < bytes.len()
        invariant
            spells(bytes@, s),
            from <= i <= bytes.len(),
            from + digit_run(s, from as int) == s.len(),
            tail == s.skip(from as int),
            value == digits_value(tail.take(i - from)),
        decreases bytes.len() - i,
    {
        proof {
            digit_run_holds_digits(s, from as int, i as int);
            assert(tail.take(i - from + 1).drop_last() =~= tail.take(i - from));
            assert(tail.take(i - from + 1).last() == s[i as int]);
        }
        let digit: u128 = (bytes[i] - 48) as u128;
        if value > (u128::MAX - digit) / 10 {
            proof {
                digits_value_grows(tail, i - from + 1, tail.len() as int);
                assert(tail.take(tail.len() as int) =~= tail);
            }
            return None;
        }
        value = value * 10 + digit;
        i += 1;
    }
    assert(tail.take(i - from) =~= tail);
    Some(value)
}

/// The value of an integer literal where it lies between two bounds.
pub open spec fn integer_within(s: Seq<char>, low: int, high: int) -> Option<int> {
    match integer_of(s) {
        Some(v) => if low <= v <= high { Some(v) } else { None },
        None => None,
    }
}

/// Reads an integer literal as its sign and its magnitude, where the
/// magnitude fits 128 bits.
pub fn parse_integer(text: &str) -> (r: Option<(bool, u128)>)
    ensures
        match r {
            Some((negative, magnitude)) => integer_of(text@) == Some(
                if negative { -(magnitude as int) } else { magnitude as int },
            ),
            None => integer_within(text@, -(u128::MAX as int), u128::MAX as int) is None,
        },
{
    if !text.is_ascii() {
        proof {
            non_ascii_is_no_decimal(text@);
        }
        return None;
    }
    proof {
        ascii_bytes_spell(text);
    }
    let bytes = text.as_bytes();
    let negative = bytes.len() > 0 && bytes[0] == 45;
    let start: usize = if negative { 1 } else { 0 };
    if start >= bytes.len() || digit_end(bytes, start, Ghost(text@)) != bytes.len() {
        return None;
    }
    match magnitude(bytes, start, Ghost(text@)) {
        Some(value) => Some((negative, value)),
        None => None,
    }
}

/// Reads an integer literal that fits `u128`.
pub fn parse_u128(text: &str) -> (r: Option<u128>)
    ensures
        match r {
            Some(v) => integer_within(text@, 0, u128::MAX as int) == Some(v as int),
            None => integer_within(text@, 0, u128::MAX as int) is None,
        },
{
    match parse_integer(text) {
        Some((negative, value)) => if !negative || value == 0 {
            Some(value)
        } else {
            None
        },
        None => None,
    }
}

/// Reads an integer literal that fits `i64`.
pub fn parse_i64(text: &str) -> (r: Option<i64>)
    ensures
        match r {
            Some(v) => integer_within(text@, i64::MIN as int, i64::MAX as int) == Some(v as int),
            None => integer_within(text@, i64::MIN as int, i64::MAX as int) is None,
        },
{
    match parse_integer(text) {
        Some((negative, value)) => if !negative && value <= i64::MAX as u128 {
            Some(value as i64)
        } else if negative && value <= i64::MAX as u128 {
            Some(-(value as i64))
        } else if negative && value == i64::MAX as u128 + 1 {
            Some(i64::MIN)
        } else {
            None
        },
        None => None,
    }
}

/// Reads an integer literal that fits `i32`.
pub fn parse_i32(text: &str) -> (r: Option<i32>)
    ensures
        match r {
            Some(v) => integer_within(text@, i32::MIN as int, i32::MAX as int) == Some(v as int),
            None => integer_within(text@, i32::MIN as int, i32::MAX as int) is None,
        },
{
    match parse_i64(text) {
        Some(v) => if i32::MIN as i64 <= v && v <= i32::MAX as i64 {
            Some(v as i32)
        } else {
            None
        },
        None => None,
    }
}

/// Calls `u128`'s `to_string`, which prints the number in decimal without
/// sign or leading zeros.
#[verifier::external_body]
pub(crate) fn decimal_string(n: u128) -> (r: String)
    ensures
        r@ == decimal_text(n as nat),
{
    n.to_string()
}

/// Tells whether a text is a decimal number.
pub fn is_decimal(text: &str) -> (r: bool)
    ensures
        r == is_decimal_text(text@),
{
    if !text.is_ascii() {
        proof {
            non_ascii_is_no_decimal(text@);
        }
        return false;
    }
    proof {
        ascii_bytes_spell(text);
    }
    let bytes = text.as_bytes();
    let start: usize = if bytes.len() > 0 && (bytes[0] == 43 || bytes[0] == 45) { 1 } else { 0 };
    special_from(bytes, start, Ghost(text@)) || number_from(bytes, start, Ghost(text@))
}

} // verus!
