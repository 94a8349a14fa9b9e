//! Identifiers of database records.
//!
//! An identifier is a 128-bit number. Its text is the UUID form: 32
//! hexadecimal digits, written in groups of 8, 4, 4, 4 and 12 with hyphens
//! between them.

use vstd::prelude::*;

verus! {

/// Identifier for entities in the MusicBrainz database.
#[derive(Clone, Copy, Debug, PartialEq, Eq, Structural)]
pub struct Mbid {
    /// The number that the 32 hexadecimal digits of the identifier write,
    /// most significant digit first.
    pub uuid: u128,
}

/// The failure to read an identifier from a text that is not in UUID form.
#[derive(Clone, Copy, Debug, PartialEq, Eq, Structural)]
pub struct ParseMbidError {}

/// The hexadecimal digits, of either case.
pub open spec fn is_hex_digit(c: char) -> bool {
    ('0' <= c && c <= '9') || ('a' <= c && c <= 'f') || ('A' <= c && c <= 'F')
}

/// The value of a hexadecimal digit.
pub open spec fn hex_value(c: char) -> int {
    if '0' <= c && c <= '9' {
        c as int - '0' as int
    } else if 'a' <= c && c <= 'f' {
        c as int - 'a' as int + 10
    } else {
        c as int - 'A' as int + 10
    }
}

/// The lower-case hexadecimal digit for a value below 16.
pub open spec fn hex_char(d: int) -> char {
    if d < 10 {
        (d + '0' as int) as char
    } else {
        (d - 10 + 'a' as int) as char
    }
}

/// Whether a text is made of hexadecimal digits alone.
pub open spec fn all_hex(s: Seq<char>) -> bool {
    forall|i: int| 0 <= i < s.len() ==> is_hex_digit(#[trigger] s[i])
}

/// The number written by a run of hexadecimal digits.
pub open spec fn hex_number(digits: Seq<char>) -> int
    decreases digits.len(),
{
    if digits.len() == 0 {
        0
    } else {
        hex_number(digits.drop_last()) * 16 + hex_value(digits.last())
    }
}

/// The `n` lower-case hexadecimal digits that write `v`, or its lowest `n`
/// digits where it has more.
pub open spec fn lower_hex_digits(v: int, n: nat) -> Seq<char>
    decreases n,
{
    if n == 0 {
        Seq::empty()
    } else {
        lower_hex_digits(v / 16, (n - 1) as nat).push(hex_char(v % 16))
    }
}

/// A hyphenated text without its four hyphens.
pub open spec fn without_hyphens(s: Seq<char>) -> Seq<char> {
    s.subrange(0, 8) + s.subrange(9, 13) + s.subrange(14, 18) + s.subrange(19, 23) + s.subrange(
        24,
        36,
    )
}

/// 32 digits in groups of 8, 4, 4, 4 and 12.
pub open spec fn with_hyphens(digits: Seq<char>) -> Seq<char> {
    digits.subrange(0, 8) + seq!['-'] + digits.subrange(8, 12) + seq!['-'] + digits.subrange(
        12,
        16,
    ) + seq!['-'] + digits.subrange(16, 20) + seq!['-'] + digits.subrange(20, 32)
}

/// 32 hexadecimal digits.
pub open spec fn is_simple(s: Seq<char>) -> bool {
    s.len() == 32 && all_hex(s)
}

/// 32 hexadecimal digits in groups of 8, 4, 4, 4 and 12, with hyphens between
/// the groups.
pub open spec fn is_hyphenated(s: Seq<char>) -> bool {
    &&& s.len() == 36
    &&& s[8] == '-'
    &&& s[13] == '-'
    &&& s[18] == '-'
    &&& s[23] == '-'
    &&& all_hex(without_hyphens(s))
}

/// The text `urn:uuid:`.
pub open spec fn urn_prefix() -> Seq<char> {
    seq!['u', 'r', 'n', ':', 'u', 'u', 'i', 'd', ':']
}

/// The hyphenated form behind the prefix `urn:uuid:`.
pub open spec fn is_urn(s: Seq<char>) -> bool {
    s.len() == 45 && s.subrange(0, 9) == urn_prefix() && is_hyphenated(s.skip(9))
}

/// The texts that name an identifier. Digits may be of either case.
pub open spec fn is_uuid_text(s: Seq<char>) -> bool {
    is_simple(s) || is_hyphenated(s) || is_urn(s)
}

/// The 32 digits of a text in UUID form.
pub open spec fn uuid_digits(s: Seq<char>) -> Seq<char> {
    if is_simple(s) {
        s
    } else if is_hyphenated(s) {
        without_hyphens(s)
    } else {
        without_hyphens(s.skip(9))
    }
}

/// The number that a text names, if it is in UUID form.
pub open spec fn uuid_number(s: Seq<char>) -> Option<u128> {
    if is_uuid_text(s) {
        Some(hex_number(uuid_digits(s)) as u128)
    } else {
        None
    }
}

/// The canonical text of an identifier: lower-case digits, hyphenated.
pub open spec fn hyphenated(v: u128) -> Seq<char> {
    with_hyphens(lower_hex_digits(v as int, 32))
}

/// Calls `uuid::Uuid::parse_str` and hands back the sixteen bytes of the
/// result as one big-endian number.
///
/// That function accepts 32 hexadecimal digits of either case, written
/// without hyphens, or with hyphens after the 8th, 12th, 16th and 20th digit,
/// or so hyphenated behind `urn:uuid:`. It fills its bytes from the digits in
/// the order in which they are written, two digits to a byte. Everything else
/// it rejects.
#[verifier::external_body]
fn parse_uuid(s: &str) -> (r: Option<u128>)
    ensures
        r == uuid_number(s@),
{
    match uuid::Uuid::parse_str(s) {
        Ok(id) => Some(u128::from_be_bytes(*id.as_bytes())),
        Err(_) => None,
    }
}

/// Formats the sixteen big-endian bytes of `v` with
/// `uuid::Uuid::to_hyphenated`.
///
/// That adapter writes each byte as two lower-case hexadecimal digits, in
/// order, and a hyphen after the 4th, 6th, 8th and 10th byte.
#[verifier::external_body]
fn format_uuid(v: u128) -> (s: String)
    ensures
        s@ == hyphenated(v),
{
    uuid::Uuid::from_bytes(v.to_be_bytes()).to_hyphenated().to_string()
}

impl Mbid {
    /// What a text parses to.
    pub open spec fn parse_spec(s: Seq<char>) -> Result<Mbid, ParseMbidError> {
        match uuid_number(s) {
            Some(v) => Ok(Mbid { uuid: v }),
            None => Err(ParseMbidError {  }),
        }
    }

    /// The canonical text of this identifier.
    pub open spec fn text_spec(self) -> Seq<char> {
        hyphenated(self.uuid)
    }

    /// The identifier with the given number.
    pub fn from_u128(uuid: u128) -> (id: Mbid)
        ensures
            id.uuid == uuid,
    {
        Mbid { uuid }
    }

    /// The number of this identifier.
    pub fn as_u128(&self) -> (v: u128)
        ensures
            v == self.uuid,
    {
        self.uuid
    }

    /// Reads an identifier from a text in UUID form; any other text is
    /// rejected. Three forms are read, with digits of either case: 32 digits
    /// without hyphens, the hyphenated form, and the hyphenated form behind
    /// `urn:uuid:`.
    pub fn from_str(s: &str) -> (r: Result<Mbid, ParseMbidError>)
        ensures
            r == Mbid::parse_spec(s@),
            r is Ok <==> is_uuid_text(s@),
    {
        match parse_uuid(s) {
            Some(v) => Ok(Mbid { uuid: v }),
            None => Err(ParseMbidError {  }),
        }
    }

    /// The canonical, hyphenated text of this identifier.
    pub fn to_string(&self) -> (s: String)
        ensures
            s@ == self.text_spec(),
    {
        format_uuid(self.uuid)
    }
}

/// `16` to the power `n`.
pub open spec fn pow16(n: nat) -> nat
    decreases n,
{
    if n == 0 {
        1
    } else {
        16 * pow16((n - 1) as nat)
    }
}

proof fn lemma_hex_char(d: int)
    requires
        0 <= d < 16,
    ensures
        is_hex_digit(hex_char(d)),
        hex_value(hex_char(d)) == d,
{
}

/// Writing a number with enough digits and reading the digits back gives the
/// number.
pub proof fn lemma_digits_round_trip(v: int, n: nat)
    requires
        0 <= v < pow16(n),
    ensures
        lower_hex_digits(v, n).len() == n,
        all_hex(lower_hex_digits(v, n)),
        hex_number(lower_hex_digits(v, n)) == v,
    decreases n,
{
    if n > 0 {
        let shorter = lower_hex_digits(v / 16, (n - 1) as nat);
        let digits = lower_hex_digits(v, n);
        lemma_digits_round_trip(v / 16, (n - 1) as nat);
        lemma_hex_char(v % 16);
        assert(digits.drop_last() == shorter);
        assert(digits.last() == hex_char(v % 16));
        assert forall|i: int| 0 <= i < digits.len() implies is_hex_digit(#[trigger] digits[i]) by {
            if i < shorter.len() {
                assert(digits[i] == shorter[i]);
            }
        }
    }
}

proof fn lemma_pow16_32()
    ensures
        pow16(32) == 0x1_0000_0000_0000_0000_0000_0000_0000_0000,
{
    assert(pow16(4) == 0x1_0000) by {
        reveal_with_fuel(pow16, 5);
    }
    assert(pow16(8) == 0x1_0000_0000) by {
        reveal_with_fuel(pow16, 5);
    }
    assert(pow16(12) == 0x1_0000_0000_0000) by {
        reveal_with_fuel(pow16, 5);
    }
    assert(pow16(16) == 0x1_0000_0000_0000_0000) by {
        reveal_with_fuel(pow16, 5);
    }
    assert(pow16(20) == 0x1_0000_0000_0000_0000_0000) by {
        reveal_with_fuel(pow16, 5);
    }
    assert(pow16(24) == 0x1_0000_0000_0000_0000_0000_0000) by {
        reveal_with_fuel(pow16, 5);
    }
    assert(pow16(28) == 0x1_0000_0000_0000_0000_0000_0000_0000) by {
        reveal_with_fuel(pow16, 5);
    }
    assert(pow16(32) == 0x1_0000_0000_0000_0000_0000_0000_0000_0000) by {
        reveal_with_fuel(pow16, 5);
    }
}

/// Taking the hyphens out of a hyphenated run of 32 digits gives the digits.
proof fn lemma_hyphens_come_out(digits: Seq<char>)
    requires
        digits.len() == 32,
    ensures
        with_hyphens(digits).len() == 36,
        with_hyphens(digits)[8] == '-',
        with_hyphens(digits)[13] == '-',
        with_hyphens(digits)[18] == '-',
        with_hyphens(digits)[23] == '-',
        without_hyphens(with_hyphens(digits)) == digits,
{
    let s = with_hyphens(digits);
    assert(s.len() == 36);
    assert(s.subrange(0, 8) == digits.subrange(0, 8));
    assert(s.subrange(9, 13) == digits.subrange(8, 12));
    assert(s.subrange(14, 18) == digits.subrange(12, 16));
    assert(s.subrange(19, 23) == digits.subrange(16, 20));
    assert(s.subrange(24, 36) == digits.subrange(20, 32));
    assert(without_hyphens(s) == digits);
}

/// The canonical text of every identifier is in UUID form and names that
/// identifier.
pub proof fn lemma_text_parses_back(id: Mbid)
    ensures
        is_hyphenated(id.text_spec()),
        Mbid::parse_spec(id.text_spec()) == Ok::<Mbid, ParseMbidError>(id),
{
    let digits = lower_hex_digits(id.uuid as int, 32);
    lemma_pow16_32();
    lemma_digits_round_trip(id.uuid as int, 32);
    lemma_hyphens_come_out(digits);
    let s = id.text_spec();
    assert(is_hyphenated(s));
    assert(!is_simple(s));
    assert(uuid_digits(s) == digits);
}

/// Round trip: a text that parses to an identifier, formatted and parsed
/// again, yields an equal identifier.
pub proof fn lemma_parse_format_parse(s: Seq<char>)
    requires
        is_uuid_text(s),
    ensures
        Mbid::parse_spec(s) is Ok,
        Mbid::parse_spec(Mbid::parse_spec(s)->Ok_0.text_spec()) == Mbid::parse_spec(s),
{
    lemma_text_parses_back(Mbid::parse_spec(s)->Ok_0);
}

/// A hexadecimal digit that is a decimal digit or a lower-case letter.
pub open spec fn is_lower_hex_digit(c: char) -> bool {
    ('0' <= c && c <= '9') || ('a' <= c && c <= 'f')
}

/// Reading lower-case digits and writing the number with as many digits
/// gives the digits.
pub proof fn lemma_number_round_trip(digits: Seq<char>)
    requires
        forall|i: int| 0 <= i < digits.len() ==> is_lower_hex_digit(#[trigger] digits[i]),
    ensures
        0 <= hex_number(digits),
        lower_hex_digits(hex_number(digits), digits.len()) == digits,
    decreases digits.len(),
{
    if digits.len() > 0 {
        let front = digits.drop_last();
        let c = digits.last();
        lemma_number_round_trip(front);
        assert(is_lower_hex_digit(c));
        assert(0 <= hex_value(c) < 16);
        assert(hex_char(hex_value(c)) == c);
        let v = hex_number(digits);
        assert(v / 16 == hex_number(front) && v % 16 == hex_value(c));
        assert(lower_hex_digits(v, digits.len()) == lower_hex_digits(v / 16, front.len()).push(
            hex_char(v % 16),
        ));
        assert(front.push(c) == digits);
    }
}

/// The canonical form is kept: a hyphenated text with lower-case digits
/// names an identifier whose text it is.
pub proof fn lemma_canonical_text_is_kept(s: Seq<char>)
    requires
        is_hyphenated(s),
        forall|i: int| 0 <= i < s.len() && s[i] != '-' ==> is_lower_hex_digit(#[trigger] s[i]),
    ensures
        Mbid::parse_spec(s) is Ok,
        Mbid::parse_spec(s)->Ok_0.text_spec() == s,
{
    let digits = without_hyphens(s);
    assert(!is_simple(s));
    assert(uuid_digits(s) == digits);
    assert(digits.len() == 32);
    assert forall|i: int| 0 <= i < digits.len() implies is_lower_hex_digit(
        #[trigger] digits[i],
    ) by {
        assert(is_hex_digit(digits[i]));
        let at = if i < 8 {
            i
        } else if i < 12 {
            i + 1
        } else if i < 16 {
            i + 2
        } else if i < 20 {
            i + 3
        } else {
            i + 4
        };
        assert(digits[i] == s[at]);
        assert(digits[i] != '-');
    }
    lemma_number_round_trip(digits);
    lemma_hex_number_bound(digits);
    lemma_pow16_32();
    let v = hex_number(digits);
    assert(v as u128 == v);
    assert(with_hyphens(digits) == s);
}

/// A run of `n` hexadecimal digits writes a number below `16^n`.
proof fn lemma_hex_number_bound(digits: Seq<char>)
    requires
        all_hex(digits),
    ensures
        0 <= hex_number(digits) < pow16(digits.len()),
    decreases digits.len(),
{
    if digits.len() > 0 {
        let front = digits.drop_last();
        assert forall|i: int| 0 <= i < front.len() implies is_hex_digit(#[trigger] front[i]) by {
            assert(front[i] == digits[i]);
        }
        lemma_hex_number_bound(front);
        assert(is_hex_digit(digits.last()));
        assert(0 <= hex_value(digits.last()) < 16);
    }
}

/// A text that is not in UUID form does not parse.
pub proof fn lemma_other_text_fails(s: Seq<char>)
    requires
        !is_uuid_text(s),
    ensures
        Mbid::parse_spec(s) is Err,
{
}

} // verus!
