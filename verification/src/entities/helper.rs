//! Decoding of the value types that records are made of.

use vstd::prelude::*;
use crate::entities::date::{ParseDateError, PartialDate};
use crate::entities::mbid::{Mbid, ParseMbidError};
use crate::error::{Error, ErrorModel};
use crate::text::{chars_of, decimal_number, parse_decimal, NumberError};
use crate::xml::{child_spec, decode_failure, failure, Document, DocumentModel};
use crate::xml::{FromXml, FromXmlOptional};

verus! {

impl DeepView for Mbid {
    type V = Mbid;

    open spec fn deep_view(&self) -> Mbid {
        *self
    }
}

impl DeepView for PartialDate {
    type V = PartialDate;

    open spec fn deep_view(&self) -> PartialDate {
        *self
    }
}

impl FromXml for Mbid {
    /// The text of the first node has to be in UUID form.
    open spec fn from_xml_spec(doc: DocumentModel, nodes: Seq<char>) -> Result<Mbid, ErrorModel> {
        match doc.text(nodes) {
            Err(e) => Err(e),
            Ok(text) => match Mbid::parse_spec(text) {
                Ok(id) => Ok(id),
                Err(_) => Err(decode_failure("Parse MBID error"@)),
            },
        }
    }

    fn from_xml(doc: &Document, nodes: &str) -> (r: Result<Mbid, Error>) {
        let text = doc.text(nodes)?;
        match Mbid::from_str(text.as_str()) {
            Ok(id) => Ok(id),
            Err(_) => Err(failure("Parse MBID error")),
        }
    }
}

impl FromXml for PartialDate {
    /// The text of the first node has to be a date.
    open spec fn from_xml_spec(doc: DocumentModel, nodes: Seq<char>) -> Result<
        PartialDate,
        ErrorModel,
    > {
        match doc.text(nodes) {
            Err(e) => Err(e),
            Ok(text) => match PartialDate::parse_spec(text) {
                Ok(date) => Ok(date),
                Err(_) => Err(decode_failure("Parse Date error"@)),
            },
        }
    }

    fn from_xml(doc: &Document, nodes: &str) -> (r: Result<PartialDate, Error>) {
        let text = doc.text(nodes)?;
        match PartialDate::from_str(text.as_str()) {
            Ok(date) => Ok(date),
            Err(_) => Err(failure("Parse Date error")),
        }
    }
}

impl FromXmlOptional for PartialDate {
    /// A missing or empty node is no date; any other text has to be one.
    open spec fn from_xml_optional_spec(doc: DocumentModel, nodes: Seq<char>) -> Result<
        Option<PartialDate>,
        ErrorModel,
    > {
        match doc.optional_text(nodes) {
            Err(e) => Err(e),
            Ok(None) => Ok(None),
            Ok(Some(text)) => match PartialDate::parse_spec(text) {
                Ok(date) => Ok(Some(date)),
                Err(_) => Err(decode_failure("Parse Date error"@)),
            },
        }
    }

    fn from_xml_optional(doc: &Document, nodes: &str) -> (r: Result<Option<PartialDate>, Error>) {
        match doc.optional_text(nodes)? {
            None => Ok(None),
            Some(text) => match PartialDate::from_str(text.as_str()) {
                Ok(date) => Ok(Some(date)),
                Err(_) => Err(failure("Parse Date error")),
            },
        }
    }
}

/// The words in which a malformed number is reported.
pub open spec fn number_failure(e: NumberError) -> ErrorModel {
    match e {
        NumberError::Empty => decode_failure("cannot parse integer from empty string"@),
        NumberError::InvalidDigit => decode_failure("invalid digit found in string"@),
        NumberError::TooLarge => decode_failure("number too large to fit in target type"@),
    }
}

/// The decimal number of at most `max` that a text writes.
pub open spec fn number_spec(text: Seq<char>, max: int) -> Result<int, ErrorModel> {
    match decimal_number(text, max) {
        Ok(n) => Ok(n),
        Err(e) => Err(number_failure(e)),
    }
}

/// Reads a decimal number of at most `max`.
pub fn read_number(text: &str, max: u64) -> (r: Result<u64, Error>)
    ensures
        match number_spec(text@, max as int) {
            Ok(n) => r is Ok && r->Ok_0 == n && 0 <= n <= max,
            Err(e) => r is Err && r->Err_0@ == e,
        },
{
    let chars = chars_of(text);
    match parse_decimal(&chars, max) {
        Ok(n) => Ok(n),
        Err(NumberError::Empty) => Err(failure("cannot parse integer from empty string")),
        Err(NumberError::InvalidDigit) => Err(failure("invalid digit found in string")),
        Err(NumberError::TooLarge) => Err(failure("number too large to fit in target type")),
    }
}

impl FromXml for u16 {
    /// The text of the first node has to be a decimal number that fits.
    open spec fn from_xml_spec(doc: DocumentModel, nodes: Seq<char>) -> Result<u16, ErrorModel> {
        match doc.text(nodes) {
            Err(e) => Err(e),
            Ok(text) => match number_spec(text, u16::MAX as int) {
                Ok(n) => Ok(n as u16),
                Err(e) => Err(e),
            },
        }
    }

    fn from_xml(doc: &Document, nodes: &str) -> (r: Result<u16, Error>) {
        let text = doc.text(nodes)?;
        let n = read_number(text.as_str(), 65535)?;
        Ok(n as u16)
    }
}

impl FromXml for u8 {
    /// The text of the first node has to be a decimal number that fits.
    open spec fn from_xml_spec(doc: DocumentModel, nodes: Seq<char>) -> Result<u8, ErrorModel> {
        match doc.text(nodes) {
            Err(e) => Err(e),
            Ok(text) => match number_spec(text, u8::MAX as int) {
                Ok(n) => Ok(n as u8),
                Err(e) => Err(e),
            },
        }
    }

    fn from_xml(doc: &Document, nodes: &str) -> (r: Result<u8, Error>) {
        let text = doc.text(nodes)?;
        let n = read_number(text.as_str(), 255)?;
        Ok(n as u8)
    }
}

/// A length in milliseconds, where the document gives one.
pub open spec fn duration_spec(doc: DocumentModel, nodes: Seq<char>, path: Seq<char>) -> Result<
    Option<u64>,
    ErrorModel,
> {
    match doc.optional_text(child_spec(nodes, path)) {
        Err(e) => Err(e),
        Ok(None) => Ok(None),
        Ok(Some(text)) => match number_spec(text, u64::MAX as int) {
            Ok(n) => Ok(Some(n as u64)),
            Err(e) => Err(e),
        },
    }
}

/// Reads a length, which the database gives in milliseconds.
pub fn read_mb_duration(doc: &Document, nodes: &str, path: &str) -> (r: Result<Option<u64>, Error>)
    ensures
        match duration_spec(doc@, nodes@, path@) {
            Ok(d) => r is Ok && r->Ok_0 == d,
            Err(e) => r is Err && r->Err_0@ == e,
        },
{
    let target = crate::xml::child(nodes, path);
    match doc.optional_text(target.as_str())? {
        None => Ok(None),
        Some(text) => {
            let n = read_number(text.as_str(), u64::MAX)?;
            Ok(Some(n))
        },
    }
}

/// An enumeration whose values the database writes as fixed words.
pub trait Keyword: Sized + DeepView {
    /// The name of the enumeration, as it appears in failures.
    spec fn kind_name() -> Seq<char>;

    /// The value that a word stands for.
    spec fn parse_spec(word: Seq<char>) -> Option<<Self as DeepView>::V>;

    /// The name of the enumeration.
    fn name() -> (n: &'static str)
        ensures
            n@ == Self::kind_name(),
    ;

    /// The value that a word stands for, if it is one of the enumeration's.
    fn from_word(word: &str) -> (r: Option<Self>)
        ensures
            match Self::parse_spec(word@) {
                Some(v) => r is Some && r->Some_0.deep_view() == v,
                None => r is None,
            },
    ;
}

/// The failure to recognise a word.
pub open spec fn unknown_word<K: Keyword>(word: Seq<char>) -> ErrorModel {
    decode_failure("Unknown `"@ + K::kind_name() + "` value: '"@ + word + "'"@)
}

/// The keyword written in the first node, which has to be there.
pub open spec fn keyword_spec<K: Keyword>(doc: DocumentModel, nodes: Seq<char>) -> Result<
    <K as DeepView>::V,
    ErrorModel,
> {
    match doc.text(nodes) {
        Err(e) => Err(e),
        Ok(word) => match K::parse_spec(word) {
            Some(v) => Ok(v),
            None => Err(unknown_word::<K>(word)),
        },
    }
}

/// The keyword written in the first node, if there is a node with a text.
pub open spec fn optional_keyword_spec<K: Keyword>(doc: DocumentModel, nodes: Seq<char>) -> Result<
    Option<<K as DeepView>::V>,
    ErrorModel,
> {
    match doc.optional_text(nodes) {
        Err(e) => Err(e),
        Ok(None) => Ok(None),
        Ok(Some(word)) => match K::parse_spec(word) {
            Some(v) => Ok(Some(v)),
            None => Err(unknown_word::<K>(word)),
        },
    }
}

fn unknown<K: Keyword>(word: &str) -> (e: Error)
    ensures
        e@ == unknown_word::<K>(word@),
{
    let mut detail = String::from_str("Unknown `");
    detail.append(K::name());
    detail.append("` value: '");
    detail.append(word);
    detail.append("'");
    failure(detail.as_str())
}

/// Reads a keyword that has to be there.
pub fn read_keyword<K: Keyword>(doc: &Document, nodes: &str) -> (r: Result<K, Error>)
    ensures
        crate::xml::agrees(r, keyword_spec::<K>(doc@, nodes@)),
{
    let word = doc.text(nodes)?;
    match K::from_word(word.as_str()) {
        Some(v) => Ok(v),
        None => Err(unknown::<K>(word.as_str())),
    }
}

/// Reads a keyword that may be absent.
pub fn read_optional_keyword<K: Keyword>(doc: &Document, nodes: &str) -> (r: Result<
    Option<K>,
    Error,
>)
    ensures
        crate::xml::agrees(r, optional_keyword_spec::<K>(doc@, nodes@)),
{
    match doc.optional_text(nodes)? {
        None => Ok(None),
        Some(word) => match K::from_word(word.as_str()) {
            Some(v) => Ok(Some(v)),
            None => Err(unknown::<K>(word.as_str())),
        },
    }
}

} // verus!
