//! Small helpers for working with `String` values in verified code.

use vstd::prelude::*;

verus! {

/// `String::push` appends exactly one character.
pub assume_specification[ String::push ](s: &mut String, c: char)
    ensures
        final(s)@ == old(s)@.push(c),
;

/// Equality of string slices is equality of their characters.
pub assume_specification[ <str as PartialEq>::eq ](a: &str, b: &str) -> (r: bool)
    ensures
        r == (a@ == b@),
;

/// The characters of `s`, in order.
pub fn chars_of(s: &str) -> (v: Vec<char>)
    ensures
        v@ == s@,
{
    broadcast use vstd::string::group_string_axioms;

    let mut v: Vec<char> = Vec::new();
    for c in rest: s.chars()
        invariant
            rest.seq() == s@,
            v@ == s@.subrange(0, rest.index() as int),
    {
        v.push(c);
    }
    assert(s@.subrange(0, s@.len() as int) == s@);
    v
}

/// The string made of the characters of `v`, in order.
pub fn string_of(v: &Vec<char>) -> (s: String)
    ensures
        s@ == v@,
{
    let mut s = String::new();
    let mut i: usize = 0;
    while i < v.len()
        invariant
            i <= v.len(),
            s@ == v@.subrange(0, i as int),
        decreases v.len() - i,
    {
        s.push(v[i]);
        i += 1;
    }
    s
}

/// The concatenation of `a` and `b`.
pub fn appended(a: &str, b: &str) -> (s: String)
    ensures
        s@ == a@ + b@,
{
    let mut s = String::from_str(a);
    s.append(b);
    s
}

/// The character that writes the digit `d`.
pub open spec fn digit_char(d: nat) -> char
    recommends
        d < 10,
{
    if d == 0 {
        '0'
    } else if d == 1 {
        '1'
    } else if d == 2 {
        '2'
    } else if d == 3 {
        '3'
    } else if d == 4 {
        '4'
    } else if d == 5 {
        '5'
    } else if d == 6 {
        '6'
    } else if d == 7 {
        '7'
    } else if d == 8 {
        '8'
    } else {
        '9'
    }
}

/// The decimal digits of `n`, most significant first, without leading zeros.
pub open spec fn decimal_digits(n: nat) -> Seq<char>
    decreases n,
{
    if n < 10 {
        seq![digit_char(n)]
    } else {
        decimal_digits(n / 10).push(digit_char(n % 10))
    }
}

/// A run of `k` zero characters.
pub open spec fn zeros(k: nat) -> Seq<char> {
    Seq::new(k, |i: int| '0')
}

/// The decimal digits of `n`, with zeros in front where there are fewer than
/// `width` of them.
pub open spec fn padded_decimal(n: nat, width: nat) -> Seq<char> {
    let digits = decimal_digits(n);
    if digits.len() >= width {
        digits
    } else {
        zeros((width - digits.len()) as nat) + digits
    }
}

fn digit_of(d: u64) -> (c: char)
    requires
        d < 10,
    ensures
        c == digit_char(d as nat),
{
    if d == 0 {
        '0'
    } else if d == 1 {
        '1'
    } else if d == 2 {
        '2'
    } else if d == 3 {
        '3'
    } else if d == 4 {
        '4'
    } else if d == 5 {
        '5'
    } else if d == 6 {
        '6'
    } else if d == 7 {
        '7'
    } else if d == 8 {
        '8'
    } else {
        '9'
    }
}

/// The decimal digits of `n`.
pub fn decimal_chars(n: u64) -> (v: Vec<char>)
    ensures
        v@ == decimal_digits(n as nat),
    decreases n,
{
    if n < 10 {
        let mut v: Vec<char> = Vec::new();
        v.push(digit_of(n));
        v
    } else {
        let mut v = decimal_chars(n / 10);
        v.push(digit_of(n % 10));
        v
    }
}

/// Appends the decimal digits of `n` to `out`, padded with zeros to `width`.
pub fn push_padded_decimal(out: &mut Vec<char>, n: u64, width: usize)
    ensures
        final(out)@ == old(out)@ + padded_decimal(n as nat, width as nat),
{
    let digits = decimal_chars(n);
    let ghost start = out@;
    let mut k: usize = digits.len();
    while k < width
        invariant
            digits.len() <= k,
            digits.len() < width ==> k <= width,
            digits.len() >= width ==> k == digits.len(),
            out@ == start + zeros((k - digits.len()) as nat),
        decreases width - k,
    {
        out.push('0');
        k += 1;
    }
    let ghost pad = zeros((k - digits.len()) as nat);
    assert(pad + digits@ == padded_decimal(n as nat, width as nat)) by {
        if digits.len() >= width {
            assert(pad + digits@ == digits@);
        }
    }
    let mut i: usize = 0;
    while i < digits.len()
        invariant
            i <= digits.len(),
            out@ == start + pad + digits@.subrange(0, i as int),
        decreases digits.len() - i,
    {
        out.push(digits[i]);
        i += 1;
    }
    assert(digits@.subrange(0, i as int) == digits@);
    assert(start + pad + digits@ == start + (pad + digits@));
}

/// The character sequences held by a vector of character vectors.
pub open spec fn views_of(v: Seq<Vec<char>>) -> Seq<Seq<char>> {
    Seq::new(v.len(), |i: int| v[i]@)
}

/// The character sequences held by a vector of strings.
pub open spec fn texts_of(v: Seq<String>) -> Seq<Seq<char>> {
    Seq::new(v.len(), |i: int| v[i]@)
}

/// The parts, with the separator between every two neighbours.
pub open spec fn join_spec(parts: Seq<Seq<char>>, sep: Seq<char>) -> Seq<char>
    decreases parts.len(),
{
    if parts.len() == 0 {
        Seq::empty()
    } else if parts.len() == 1 {
        parts[0]
    } else {
        join_spec(parts.drop_last(), sep) + sep + parts.last()
    }
}

/// Joins the parts with the separator.
pub fn join(parts: &Vec<String>, sep: &str) -> (s: String)
    ensures
        s@ == join_spec(texts_of(parts@), sep@),
{
    let mut s = String::new();
    let mut i: usize = 0;
    while i < parts.len()
        invariant
            i <= parts.len(),
            s@ == join_spec(texts_of(parts@).subrange(0, i as int), sep@),
        decreases parts.len() - i,
    {
        proof {
            let upto = texts_of(parts@).subrange(0, i + 1);
            assert(upto.drop_last() == texts_of(parts@).subrange(0, i as int));
            assert(upto.last() == parts[i as int]@);
        }
        if i > 0 {
            s.append(sep);
        }
        s.append(parts[i].as_str());
        i += 1;
    }
    assert(texts_of(parts@).subrange(0, i as int) == texts_of(parts@));
    s
}

/// Why a text is not a decimal number within a bound.
#[derive(Clone, Copy, Debug, PartialEq, Eq, Structural)]
pub enum NumberError {
    /// The text has no characters.
    Empty,
    /// A character is not a decimal digit, or a sign stands alone.
    InvalidDigit,
    /// The digits read so far already exceed the bound.
    TooLarge,
}

impl NumberError {
    /// The name of the failure.
    pub open spec fn word_spec(self) -> Seq<char> {
        match self {
            NumberError::Empty => "Empty"@,
            NumberError::InvalidDigit => "InvalidDigit"@,
            NumberError::TooLarge => "TooLarge"@,
        }
    }

    /// The name of the failure.
    pub fn as_str(&self) -> (s: &'static str)
        ensures
            s@ == self.word_spec(),
    {
        match self {
            NumberError::Empty => "Empty",
            NumberError::InvalidDigit => "InvalidDigit",
            NumberError::TooLarge => "TooLarge",
        }
    }
}

/// The ten decimal digits.
pub open spec fn is_decimal_digit(c: char) -> bool {
    '0' <= c && c <= '9'
}

/// The value of a decimal digit.
pub open spec fn digit_value(c: char) -> int {
    c as int - '0' as int
}

/// Reads `digits` from the left, starting from the value `acc`. The first
/// character that is no digit, or that takes the value past `max`, decides
/// the error.
pub open spec fn scan_number(digits: Seq<char>, acc: int, max: int) -> Result<int, NumberError>
    decreases digits.len(),
{
    if digits.len() == 0 {
        Ok(acc)
    } else if !is_decimal_digit(digits[0]) {
        Err(NumberError::InvalidDigit)
    } else if acc * 10 + digit_value(digits[0]) > max {
        Err(NumberError::TooLarge)
    } else {
        scan_number(digits.skip(1), acc * 10 + digit_value(digits[0]), max)
    }
}

/// The number a text stands for: decimal digits after an optional `+`, with
/// a value of at most `max`.
pub open spec fn decimal_number(text: Seq<char>, max: int) -> Result<int, NumberError> {
    if text.len() == 0 {
        Err(NumberError::Empty)
    } else if text[0] == '+' {
        if text.len() == 1 {
            Err(NumberError::InvalidDigit)
        } else {
            scan_number(text.skip(1), 0, max)
        }
    } else {
        scan_number(text, 0, max)
    }
}

/// Reading one more character continues from what the characters before
/// it gave.
pub proof fn lemma_scan_number_push(digits: Seq<char>, c: char, acc: int, max: int)
    ensures
        scan_number(digits.push(c), acc, max) == (match scan_number(digits, acc, max) {
            Err(e) => Err(e),
            Ok(v) => if !is_decimal_digit(c) {
                Err(NumberError::InvalidDigit)
            } else if v * 10 + digit_value(c) > max {
                Err(NumberError::TooLarge)
            } else {
                Ok(v * 10 + digit_value(c))
            },
        }),
    decreases digits.len(),
{
    let longer = digits.push(c);
    reveal_with_fuel(scan_number, 2);
    if digits.len() == 0 {
        assert(longer.skip(1) == Seq::<char>::empty());
        assert(longer[0] == c);
    } else {
        assert(longer[0] == digits[0]);
        assert(longer.skip(1) == digits.skip(1).push(c));
        if is_decimal_digit(digits[0]) && acc * 10 + digit_value(digits[0]) <= max {
            lemma_scan_number_push(digits.skip(1), c, acc * 10 + digit_value(digits[0]), max);
        }
    }
}

/// The digits of a number are decimal digits, and read back they give the
/// number.
pub proof fn lemma_decimal_digits_read_back(n: nat, max: int)
    requires
        n <= max,
    ensures
        decimal_digits(n).len() >= 1,
        forall|i: int|
            0 <= i < decimal_digits(n).len() ==> is_decimal_digit(#[trigger] decimal_digits(n)[i]),
        scan_number(decimal_digits(n), 0, max) == Ok::<int, NumberError>(n as int),
    decreases n,
{
    let digits = decimal_digits(n);
    if n < 10 {
        reveal_with_fuel(scan_number, 2);
        assert(digits.skip(1) == Seq::<char>::empty());
        assert(digits[0] == digit_char(n));
        assert(digit_value(digit_char(n)) == n);
    } else {
        let front = decimal_digits(n / 10);
        let c = digit_char(n % 10);
        lemma_decimal_digits_read_back(n / 10, max);
        lemma_scan_number_push(front, c, 0, max);
        assert(digit_value(c) == n % 10);
        assert forall|i: int| 0 <= i < digits.len() implies is_decimal_digit(
            #[trigger] digits[i],
        ) by {
            if i < front.len() {
                assert(digits[i] == front[i]);
            }
        }
    }
}

/// Zeros in front of a number do not change what is read.
pub proof fn lemma_leading_zeros(k: nat, digits: Seq<char>, max: int)
    requires
        0 <= max,
    ensures
        scan_number(zeros(k) + digits, 0, max) == scan_number(digits, 0, max),
    decreases k,
{
    if k == 0 {
        assert(zeros(0) + digits == digits);
    } else {
        let padded = zeros(k) + digits;
        assert(padded[0] == '0');
        assert(padded.skip(1) == zeros((k - 1) as nat) + digits);
        lemma_leading_zeros((k - 1) as nat, digits, max);
    }
}

/// A padded number reads back as the number.
pub proof fn lemma_padded_decimal_reads_back(n: nat, width: nat, max: int)
    requires
        n <= max,
    ensures
        padded_decimal(n, width).len() >= 1,
        forall|i: int|
            0 <= i < padded_decimal(n, width).len() ==> is_decimal_digit(
                #[trigger] padded_decimal(n, width)[i],
            ),
        decimal_number(padded_decimal(n, width), max) == Ok::<int, NumberError>(n as int),
{
    let digits = decimal_digits(n);
    lemma_decimal_digits_read_back(n, max);
    let padded = padded_decimal(n, width);
    if digits.len() < width {
        let k = (width - digits.len()) as nat;
        lemma_leading_zeros(k, digits, max);
        assert forall|i: int| 0 <= i < padded.len() implies is_decimal_digit(
            #[trigger] padded[i],
        ) by {
            if i >= k {
                assert(padded[i] == digits[i - k]);
            }
        }
    }
    assert(is_decimal_digit(padded[0]));
}

/// Reads the digits of `text` from position `start` on.
fn scan_digits(text: &Vec<char>, start: usize, max: u64) -> (r: Result<u64, NumberError>)
    requires
        start <= text.len(),
    ensures
        match scan_number(text@.skip(start as int), 0, max as int) {
            Ok(n) => r == Ok::<u64, NumberError>(n as u64) && 0 <= n <= max,
            Err(e) => r == Err::<u64, NumberError>(e),
        },
{
    let n = text.len();
    let mut i: usize = start;
    let mut acc: u64 = 0;
    while i < n
        invariant
            n == text.len(),
            start <= i <= n,
            acc <= max,
            scan_number(text@.skip(start as int), 0, max as int) == scan_number(
                text@.skip(i as int),
                acc as int,
                max as int,
            ),
        decreases n - i,
    {
        let c = text[i];
        proof {
            let rest = text@.skip(i as int);
            assert(rest[0] == c);
            assert(rest.skip(1) == text@.skip(i + 1));
        }
        if !('0' <= c && c <= '9') {
            return Err(NumberError::InvalidDigit);
        }
        let d: u128 = (c as u32 - '0' as u32) as u128;
        let next: u128 = acc as u128 * 10 + d;
        if next > max as u128 {
            return Err(NumberError::TooLarge);
        }
        acc = next as u64;
        i += 1;
    }
    Ok(acc)
}

/// Parses a decimal number of at most `max`.
pub fn parse_decimal(text: &Vec<char>, max: u64) -> (r: Result<u64, NumberError>)
    ensures
        match decimal_number(text@, max as int) {
            Ok(n) => r == Ok::<u64, NumberError>(n as u64) && 0 <= n <= max,
            Err(e) => r == Err::<u64, NumberError>(e),
        },
{
    let n = text.len();
    if n == 0 {
        return Err(NumberError::Empty);
    }
    let start: usize = if text[0] == '+' {
        if n == 1 {
            return Err(NumberError::InvalidDigit);
        }
        1
    } else {
        assert(text@.skip(0) == text@);
        0
    };
    scan_digits(text, start, max)
}

} // verus!
