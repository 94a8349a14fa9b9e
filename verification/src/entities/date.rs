//! Dates as the database stores them: any of year, month and day may be
//! unknown.

use vstd::prelude::*;
use crate::text::{
    chars_of, decimal_chars, decimal_digits, decimal_number, padded_decimal, parse_decimal,
    push_padded_decimal, string_of, views_of, NumberError,
};

verus! {

/// Represents a partial date as it is used across MusicBrainz.
///
/// Note that even completely empty dates are possible.
#[derive(Clone, Copy, Debug, PartialEq, Eq, Structural)]
pub struct PartialDate {
    pub year: Option<u16>,
    pub month: Option<u8>,
    pub day: Option<u8>,
}

/// Represents a fully specified date.
#[derive(Clone, Copy, Debug, PartialEq, Eq, Structural)]
pub struct FullDate {
    pub year: u16,
    pub month: u8,
    pub day: u8,
}

/// Why a text is not a date.
#[derive(Clone, Copy, Debug, PartialEq, Eq, Structural)]
pub enum ParseDateError {
    /// A wrong number of `-` separated components was found in the string.
    WrongNumberOfComponents(usize),
    /// Failed parsing a component into the appropriate number type.
    ComponentInvalid(NumberError),
}

/// The pieces of `s` between its `-` characters. There is always at least
/// one piece, and a text with `n` dashes has `n + 1` pieces.
pub open spec fn split_dash(s: Seq<char>) -> Seq<Seq<char>>
    decreases s.len(),
{
    if s.len() == 0 {
        seq![Seq::<char>::empty()]
    } else {
        let before = split_dash(s.drop_last());
        if s.last() == '-' {
            before.push(Seq::<char>::empty())
        } else {
            before.drop_last().push(before.last().push(s.last()))
        }
    }
}

/// A component is either a run of question marks of the width of a year or
/// of a month, standing for "unknown", or a number.
pub open spec fn component_value(piece: Seq<char>) -> Result<Option<u16>, NumberError> {
    if piece == seq!['?', '?'] || piece == seq!['?', '?', '?', '?'] {
        Ok(None)
    } else {
        match decimal_number(piece, u16::MAX as int) {
            Ok(n) => Ok(Some(n as u16)),
            Err(e) => Err(e),
        }
    }
}

/// The values of all pieces, or the error of the leftmost piece that has one.
pub open spec fn component_values(pieces: Seq<Seq<char>>) -> Result<
    Seq<Option<u16>>,
    NumberError,
>
    decreases pieces.len(),
{
    if pieces.len() == 0 {
        Ok(Seq::empty())
    } else {
        match component_values(pieces.drop_last()) {
            Err(e) => Err(e),
            Ok(values) => match component_value(pieces.last()) {
                Err(e) => Err(e),
                Ok(v) => Ok(values.push(v)),
            },
        }
    }
}

/// Months and days keep the low eight bits of the number that was written.
pub open spec fn narrow(v: Option<u16>) -> Option<u8> {
    match v {
        Some(n) => Some((n % 256) as u8),
        None => None,
    }
}

impl ParseDateError {
    /// A short description of the failure.
    pub open spec fn description_spec(self) -> Seq<char> {
        match self {
            ParseDateError::WrongNumberOfComponents(_) => "wrong number of components"@,
            ParseDateError::ComponentInvalid(_) => "invalid component"@,
        }
    }

    /// The failure in words.
    pub open spec fn text_spec(self) -> Seq<char> {
        match self {
            ParseDateError::WrongNumberOfComponents(n) =>
                "ParseDateError: Wrong number of components: "@ + decimal_digits(n as nat),
            ParseDateError::ComponentInvalid(e) => "ParseDateError: Component invalid: "@
                + e.word_spec(),
        }
    }

    /// A short description of the failure.
    pub fn description(&self) -> (s: &'static str)
        ensures
            s@ == self.description_spec(),
    {
        match self {
            ParseDateError::WrongNumberOfComponents(_) => "wrong number of components",
            ParseDateError::ComponentInvalid(_) => "invalid component",
        }
    }

    /// The failure in words.
    pub fn to_string(&self) -> (s: String)
        ensures
            s@ == self.text_spec(),
    {
        match self {
            ParseDateError::WrongNumberOfComponents(n) => {
                let mut s = String::from_str("ParseDateError: Wrong number of components: ");
                s.append(string_of(&decimal_chars(*n as u64)).as_str());
                s
            },
            ParseDateError::ComponentInvalid(e) => {
                let mut s = String::from_str("ParseDateError: Component invalid: ");
                s.append(e.as_str());
                s
            },
        }
    }
}

impl PartialDate {
    /// What a text parses to.
    ///
    /// A malformed component is reported before a wrong number of components.
    pub open spec fn parse_spec(s: Seq<char>) -> Result<PartialDate, ParseDateError> {
        match component_values(split_dash(s)) {
            Err(e) => Err(ParseDateError::ComponentInvalid(e)),
            Ok(values) => if values.len() == 1 {
                Ok(PartialDate { year: values[0], month: None, day: None })
            } else if values.len() == 2 {
                Ok(PartialDate { year: values[0], month: narrow(values[1]), day: None })
            } else if values.len() == 3 {
                Ok(
                    PartialDate {
                        year: values[0],
                        month: narrow(values[1]),
                        day: narrow(values[2]),
                    },
                )
            } else {
                Err(ParseDateError::WrongNumberOfComponents(values.len() as usize))
            },
        }
    }

    /// The canonical text of a date: year, month and day, zero-padded to four,
    /// two and two digits, unknown parts as question marks.
    pub open spec fn text_spec(self) -> Seq<char> {
        (match self.year {
            Some(y) => padded_decimal(y as nat, 4),
            None => seq!['?', '?', '?', '?'],
        }) + seq!['-'] + (match self.month {
            Some(m) => padded_decimal(m as nat, 2),
            None => seq!['?', '?'],
        }) + seq!['-'] + (match self.day {
            Some(d) => padded_decimal(d as nat, 2),
            None => seq!['?', '?'],
        })
    }

    /// The date with the given parts.
    pub fn new(year: Option<u16>, month: Option<u8>, day: Option<u8>) -> (d: PartialDate)
        ensures
            d == (PartialDate { year, month, day }),
    {
        PartialDate { year, month, day }
    }

    /// The year, where it is known.
    pub fn year(&self) -> (y: Option<u16>)
        ensures
            y == self.year,
    {
        self.year
    }

    /// The month, where it is known.
    pub fn month(&self) -> (m: Option<u8>)
        ensures
            m == self.month,
    {
        self.month
    }

    /// The day, where it is known.
    pub fn day(&self) -> (d: Option<u8>)
        ensures
            d == self.day,
    {
        self.day
    }

    /// If this `PartialDate` is fully specified, `Some(FullDate)` will be
    /// returned, otherwise `None` will be returned.
    pub fn full_date(&self) -> (f: Option<FullDate>)
        ensures
            f is Some <==> (self.year is Some && self.month is Some && self.day is Some),
            f matches Some(d) ==> self.year == Some(d.year) && self.month == Some(d.month)
                && self.day == Some(d.day),
    {
        match (self.year, self.month, self.day) {
            (Some(year), Some(month), Some(day)) => Some(FullDate { year, month, day }),
            _ => None,
        }
    }

    /// Parses a date of one, two or three components separated by `-`.
    pub fn from_str(s: &str) -> (r: Result<PartialDate, ParseDateError>)
        ensures
            r == PartialDate::parse_spec(s@),
    {
        let pieces = split_pieces(s);
        let mut values: Vec<Option<u16>> = Vec::new();
        let mut i: usize = 0;
        while i < pieces.len()
            invariant
                i <= pieces.len(),
                views_of(pieces@) == split_dash(s@),
                component_values(views_of(pieces@).subrange(0, i as int)) == Ok::<
                    Seq<Option<u16>>,
                    NumberError,
                >(values@),
            decreases pieces.len() - i,
        {
            proof {
                let upto = views_of(pieces@).subrange(0, i + 1);
                assert(upto.drop_last() == views_of(pieces@).subrange(0, i as int));
                assert(upto.last() == pieces[i as int]@);
            }
            match parse_component(&pieces[i]) {
                Ok(v) => {
                    values.push(v);
                },
                Err(e) => {
                    proof {
                        lemma_component_error_stays(views_of(pieces@), i + 1);
                    }
                    return Err(ParseDateError::ComponentInvalid(e));
                },
            }
            i += 1;
        }
        assert(views_of(pieces@).subrange(0, i as int) == views_of(pieces@));
        if values.len() == 1 {
            Ok(PartialDate { year: values[0], month: None, day: None })
        } else if values.len() == 2 {
            Ok(PartialDate { year: values[0], month: narrow_component(values[1]), day: None })
        } else if values.len() == 3 {
            Ok(
                PartialDate {
                    year: values[0],
                    month: narrow_component(values[1]),
                    day: narrow_component(values[2]),
                },
            )
        } else {
            Err(ParseDateError::WrongNumberOfComponents(values.len()))
        }
    }

    /// The canonical text of the date.
    pub fn to_string(&self) -> (s: String)
        ensures
            s@ == self.text_spec(),
    {
        let mut out: Vec<char> = Vec::new();
        match self.year {
            Some(y) => {
                push_padded_decimal(&mut out, y as u64, 4);
            },
            None => {
                out.push('?');
                out.push('?');
                out.push('?');
                out.push('?');
            },
        }
        out.push('-');
        match self.month {
            Some(m) => {
                push_padded_decimal(&mut out, m as u64, 2);
            },
            None => {
                out.push('?');
                out.push('?');
            },
        }
        out.push('-');
        match self.day {
            Some(d) => {
                push_padded_decimal(&mut out, d as u64, 2);
            },
            None => {
                out.push('?');
                out.push('?');
            },
        }
        assert(out@ == self.text_spec());
        string_of(&out)
    }
}

impl FullDate {
    /// The date with the given parts.
    pub fn new(year: u16, month: u8, day: u8) -> (d: FullDate)
        ensures
            d == (FullDate { year, month, day }),
    {
        FullDate { year, month, day }
    }

    /// The year.
    pub fn year(&self) -> (y: u16)
        ensures
            y == self.year,
    {
        self.year
    }

    /// The month.
    pub fn month(&self) -> (m: u8)
        ensures
            m == self.month,
    {
        self.month
    }

    /// The day.
    pub fn day(&self) -> (d: u8)
        ensures
            d == self.day,
    {
        self.day
    }
}

/// Whether a text is free of dashes.
pub open spec fn dashless(s: Seq<char>) -> bool {
    forall|i: int| 0 <= i < s.len() ==> #[trigger] s[i] != '-'
}

/// Splitting is the inverse of joining with dashes: the pieces of a text hold
/// no dash, and joined with dashes they give the text again.
pub proof fn lemma_split_dash(s: Seq<char>)
    ensures
        split_dash(s).len() >= 1,
        forall|k: int| 0 <= k < split_dash(s).len() ==> dashless(#[trigger] split_dash(s)[k]),
        crate::text::join_spec(split_dash(s), seq!['-']) == s,
    decreases s.len(),
{
    let dash = seq!['-'];
    if s.len() == 0 {
        assert(split_dash(s)[0].len() == 0);
    } else {
        let shorter = s.drop_last();
        let before = split_dash(shorter);
        lemma_split_dash(shorter);
        let pieces = split_dash(s);
        if s.last() == '-' {
            let empty = Seq::<char>::empty();
            assert(pieces == before.push(empty));
            assert(pieces.drop_last() == before);
            assert(crate::text::join_spec(pieces, dash) == shorter + dash + empty);
            assert(shorter + dash + empty == s);
            assert forall|k: int| 0 <= k < pieces.len() implies dashless(
                #[trigger] pieces[k],
            ) by {
                if k < before.len() {
                    assert(pieces[k] == before[k]);
                }
            }
        } else {
            let grown = before.last().push(s.last());
            assert(pieces == before.drop_last().push(grown));
            assert(pieces.drop_last() == before.drop_last());
            assert forall|k: int| 0 <= k < pieces.len() implies dashless(
                #[trigger] pieces[k],
            ) by {
                if k < before.len() - 1 {
                    assert(pieces[k] == before[k]);
                } else {
                    assert(dashless(before[before.len() - 1]));
                    assert forall|i: int| 0 <= i < grown.len() implies #[trigger] grown[i]
                        != '-' by {
                        if i < before.last().len() {
                            assert(grown[i] == before.last()[i]);
                        }
                    }
                }
            }
            if before.len() == 1 {
                assert(crate::text::join_spec(before, dash) == before[0]);
                assert(crate::text::join_spec(pieces, dash) == grown);
                assert(grown == shorter.push(s.last()));
            } else {
                let head = crate::text::join_spec(before.drop_last(), dash);
                assert(shorter == head + dash + before.last());
                assert(crate::text::join_spec(pieces, dash) == head + dash + grown);
                assert(head + dash + grown == (head + dash + before.last()).push(s.last()));
            }
            assert(shorter.push(s.last()) == s);
        }
    }
}

/// A text without dashes is a single piece.
proof fn lemma_split_dashless(s: Seq<char>)
    requires
        dashless(s),
    ensures
        split_dash(s) == seq![s],
    decreases s.len(),
{
    if s.len() > 0 {
        assert(dashless(s.drop_last())) by {
            assert forall|i: int| 0 <= i < s.drop_last().len() implies #[trigger] s.drop_last()[i]
                != '-' by {
                assert(s.drop_last()[i] == s[i]);
            }
        }
        lemma_split_dashless(s.drop_last());
        assert(s.last() != '-');
        assert(s.drop_last().push(s.last()) == s);
        let before = seq![s.drop_last()];
        assert(before.drop_last().push(before.last().push(s.last())) == seq![s]);
    } else {
        assert(s == Seq::<char>::empty());
    }
}

/// A dash followed by a text without dashes adds that text as a piece.
proof fn lemma_split_appended(a: Seq<char>, b: Seq<char>)
    requires
        dashless(b),
    ensures
        split_dash(a + seq!['-'] + b) == split_dash(a).push(b),
    decreases b.len(),
{
    let s = a + seq!['-'] + b;
    if b.len() == 0 {
        assert(b == Seq::<char>::empty());
        assert(s.drop_last() == a);
        assert(s.last() == '-');
    } else {
        let shorter = b.drop_last();
        assert(dashless(shorter)) by {
            assert forall|i: int| 0 <= i < shorter.len() implies #[trigger] shorter[i] != '-' by {
                assert(shorter[i] == b[i]);
            }
        }
        lemma_split_appended(a, shorter);
        assert(s.drop_last() == a + seq!['-'] + shorter);
        assert(s.last() == b.last());
        assert(b.last() != '-');
        assert(shorter.push(b.last()) == b);
        assert(split_dash(a).push(shorter).drop_last() == split_dash(a));
    }
}

/// A month or day as a component holds it.
pub open spec fn widen(v: Option<u8>) -> Option<u16> {
    match v {
        Some(n) => Some(n as u16),
        None => None,
    }
}

/// What a written component stands for: its number, or nothing where it is
/// made of question marks.
proof fn lemma_component_reads_back(value: Option<u16>, width: nat)
    requires
        width == 2 || width == 4,
    ensures
        ({
            let piece = match value {
                Some(n) => padded_decimal(n as nat, width),
                None => Seq::new(width, |i: int| '?'),
            };
            dashless(piece) && component_value(piece) == Ok::<Option<u16>, NumberError>(value)
        }),
{
    match value {
        Some(n) => {
            let piece = padded_decimal(n as nat, width);
            crate::text::lemma_padded_decimal_reads_back(n as nat, width, u16::MAX as int);
            assert(crate::text::is_decimal_digit(piece[0]));
            assert(piece != seq!['?', '?']) by {
                if piece == seq!['?', '?'] {
                    assert(piece[0] == '?');
                }
            }
            assert(piece != seq!['?', '?', '?', '?']) by {
                if piece == seq!['?', '?', '?', '?'] {
                    assert(piece[0] == '?');
                }
            }
            assert forall|i: int| 0 <= i < piece.len() implies #[trigger] piece[i] != '-' by {
                assert(crate::text::is_decimal_digit(piece[i]));
            }
        },
        None => {
            let piece = Seq::new(width, |i: int| '?');
            if width == 2 {
                assert(piece == seq!['?', '?']);
            } else {
                assert(piece == seq!['?', '?', '?', '?']);
            }
        },
    }
}

/// Round trip: the canonical text of every date parses to that date.
pub proof fn lemma_date_text_parses_back(date: PartialDate)
    ensures
        PartialDate::parse_spec(date.text_spec()) == Ok::<PartialDate, ParseDateError>(date),
{
    let year = match date.year {
        Some(n) => padded_decimal(n as nat, 4),
        None => seq!['?', '?', '?', '?'],
    };
    let month = match date.month {
        Some(n) => padded_decimal(n as nat, 2),
        None => seq!['?', '?'],
    };
    let day = match date.day {
        Some(n) => padded_decimal(n as nat, 2),
        None => seq!['?', '?'],
    };
    assert(Seq::new(4, |i: int| '?') == seq!['?', '?', '?', '?']);
    assert(Seq::new(2, |i: int| '?') == seq!['?', '?']);
    lemma_component_reads_back(date.year, 4);
    lemma_component_reads_back(widen(date.month), 2);
    lemma_component_reads_back(widen(date.day), 2);
    assert(component_value(year) == Ok::<Option<u16>, NumberError>(date.year));
    assert(component_value(month) == Ok::<Option<u16>, NumberError>(widen(date.month)));
    assert(component_value(day) == Ok::<Option<u16>, NumberError>(widen(date.day)));
    lemma_split_dashless(year);
    lemma_split_appended(year, month);
    lemma_split_appended(year + seq!['-'] + month, day);
    let text = date.text_spec();
    assert(text == year + seq!['-'] + month + seq!['-'] + day);
    let pieces = split_dash(text);
    assert(pieces == seq![year, month, day]);
    reveal_with_fuel(component_values, 4);
    assert(pieces.drop_last() == seq![year, month]);
    assert(pieces.drop_last().drop_last() == seq![year]);
    assert(pieces.drop_last().drop_last().drop_last() == Seq::<Seq<char>>::empty());
    let values = seq![date.year, widen(date.month), widen(date.day)];
    assert(pieces.last() == day);
    assert(pieces.drop_last().last() == month);
    assert(pieces.drop_last().drop_last().last() == year);
    assert(component_values(seq![year]) == Ok::<Seq<Option<u16>>, NumberError>(
        Seq::<Option<u16>>::empty().push(date.year),
    ));
    assert(component_values(seq![year, month]) == Ok::<Seq<Option<u16>>, NumberError>(
        Seq::<Option<u16>>::empty().push(date.year).push(widen(date.month)),
    ));
    assert(Seq::<Option<u16>>::empty().push(date.year).push(widen(date.month)).push(
        widen(date.day),
    ) == values);
    assert(component_values(pieces) == Ok::<Seq<Option<u16>>, NumberError>(values));
    assert(narrow(widen(date.month)) == date.month);
    assert(narrow(widen(date.day)) == date.day);
}

/// Once a prefix of the pieces has an error, every longer prefix has the same.
proof fn lemma_component_error_stays(pieces: Seq<Seq<char>>, k: int)
    requires
        0 <= k <= pieces.len(),
        component_values(pieces.subrange(0, k)) is Err,
    ensures
        component_values(pieces) == component_values(pieces.subrange(0, k)),
    decreases pieces.len() - k,
{
    if k == pieces.len() {
        assert(pieces.subrange(0, k) == pieces);
    } else {
        let next = pieces.subrange(0, k + 1);
        assert(next.drop_last() == pieces.subrange(0, k));
        lemma_component_error_stays(pieces, k + 1);
    }
}

fn narrow_component(v: Option<u16>) -> (r: Option<u8>)
    ensures
        r == narrow(v),
{
    match v {
        Some(n) => Some((n % 256) as u8),
        None => None,
    }
}

/// Splits a text at its dashes.
fn split_pieces(s: &str) -> (pieces: Vec<Vec<char>>)
    ensures
        views_of(pieces@) == split_dash(s@),
{
    let chars = chars_of(s);
    let mut pieces: Vec<Vec<char>> = Vec::new();
    let mut current: Vec<char> = Vec::new();
    let mut i: usize = 0;
    assert(views_of(pieces@).push(current@) == seq![Seq::<char>::empty()]);
    assert(chars@.subrange(0, 0) == Seq::<char>::empty());
    while i < chars.len()
        invariant
            i <= chars.len(),
            chars@ == s@,
            split_dash(chars@.subrange(0, i as int)) == views_of(pieces@).push(current@),
        decreases chars.len() - i,
    {
        let c = chars[i];
        let ghost before = views_of(pieces@).push(current@);
        proof {
            let upto = chars@.subrange(0, i + 1);
            assert(upto.drop_last() == chars@.subrange(0, i as int));
            assert(upto.last() == c);
        }
        if c == '-' {
            pieces.push(current);
            current = Vec::new();
            assert(views_of(pieces@).push(current@) == before.push(Seq::<char>::empty()));
        } else {
            current.push(c);
            assert(views_of(pieces@).push(current@) == before.drop_last().push(
                before.last().push(c),
            ));
        }
        i += 1;
    }
    assert(chars@.subrange(0, i as int) == chars@);
    let ghost all = views_of(pieces@).push(current@);
    pieces.push(current);
    assert(views_of(pieces@) == all);
    pieces
}

/// Parses one component of a date.
pub fn parse_component(piece: &Vec<char>) -> (r: Result<Option<u16>, NumberError>)
    ensures
        r == component_value(piece@),
{
    let n = piece.len();
    if n == 2 && piece[0] == '?' && piece[1] == '?' {
        assert(piece@ == seq!['?', '?']);
        return Ok(None);
    }
    if n == 4 && piece[0] == '?' && piece[1] == '?' && piece[2] == '?' && piece[3] == '?' {
        assert(piece@ == seq!['?', '?', '?', '?']);
        return Ok(None);
    }
    assert(piece@ != seq!['?', '?']) by {
        if piece@ == seq!['?', '?'] {
            assert(piece@.len() == 2 && piece@[0] == '?' && piece@[1] == '?');
        }
    }
    assert(piece@ != seq!['?', '?', '?', '?']) by {
        if piece@ == seq!['?', '?', '?', '?'] {
            assert(piece@.len() == 4 && piece@[0] == '?' && piece@[1] == '?' && piece@[2] == '?'
                && piece@[3] == '?');
        }
    }
    match parse_decimal(piece, 65535) {
        Ok(v) => Ok(Some(v as u16)),
        Err(e) => Err(e),
    }
}

} // verus!
