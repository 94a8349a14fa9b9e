//! Languages, named by their ISO 639 codes.

use vstd::prelude::*;
use crate::error::{Error, ErrorKind, ErrorModel};
use crate::text::appended;
use crate::xml::{decode_failure, failure, required, required_spec};
use crate::xml::{Document, DocumentModel, FromXml, FromXmlOptional};

verus! {

/// Represents verbal languages.
#[derive(Clone, Debug, PartialEq, Eq)]
pub struct Language {
    /// The three-letter ISO 639-3 code.
    code: String,
}

/// The three-letter code of the language that
/// `isolang::Language::from_639_3` finds for a code, if it finds one.
pub uninterp spec fn iso_639_3(code: Seq<char>) -> Option<Seq<char>>;

/// The three-letter code of the language that
/// `isolang::Language::from_639_1` finds for a two-letter code, if it finds
/// one.
pub uninterp spec fn iso_639_3_of_1(code: Seq<char>) -> Option<Seq<char>>;

/// The two-letter code that `isolang::Language::to_639_1` gives for the
/// language with the given three-letter code, if there is such a language
/// and it has one.
pub uninterp spec fn iso_639_1_of_3(code: Seq<char>) -> Option<Seq<char>>;

/// The characters of an optional string.
pub open spec fn text_of(s: Option<String>) -> Option<Seq<char>> {
    match s {
        Some(s) => Some(s@),
        None => None,
    }
}

/// Looks a three-letter code up with `isolang::Language::from_639_3` and
/// hands back the three-letter code of what was found, as
/// `isolang::Language::to_639_3` gives it. The table is keyed by that code,
/// so what comes back is the code that was looked up.
#[verifier::external_body]
fn lookup_639_3(code: &str) -> (r: Option<String>)
    ensures
        text_of(r) == iso_639_3(code@),
        r matches Some(found) ==> found@ == code@,
{
    match isolang::Language::from_639_3(code) {
        Some(language) => Some(language.to_639_3().to_string()),
        None => None,
    }
}

/// Looks a two-letter code up with `isolang::Language::from_639_1` and hands
/// back the three-letter code of what was found.
#[verifier::external_body]
fn lookup_639_1(code: &str) -> (r: Option<String>)
    ensures
        text_of(r) == iso_639_3_of_1(code@),
{
    match isolang::Language::from_639_1(code) {
        Some(language) => Some(language.to_639_3().to_string()),
        None => None,
    }
}

/// The two-letter code that `isolang::Language::to_639_1` gives for the
/// language with the given three-letter code.
#[verifier::external_body]
fn short_code(code: &str) -> (r: Option<String>)
    ensures
        text_of(r) == iso_639_1_of_3(code@),
{
    match isolang::Language::from_639_3(code) {
        Some(language) => match language.to_639_1() {
            Some(short) => Some(short.to_string()),
            None => None,
        },
        None => None,
    }
}

impl DeepView for Language {
    type V = Seq<char>;

    /// A language is its three-letter code.
    closed spec fn deep_view(&self) -> Seq<char> {
        self.code@
    }
}

/// The failure to find a language for a code of the given standard.
pub open spec fn invalid_code(standard: Seq<char>, code: Seq<char>) -> ErrorModel {
    ErrorModel {
        message: "Invalid ISO "@ + standard + " code: "@ + code,
        kind: ErrorKind::ParseResponse,
    }
}

fn invalid(standard: &str, code: &str) -> (e: Error)
    ensures
        e@ == invalid_code(standard@, code@),
{
    let mut message = String::from_str("Invalid ISO ");
    message.append(standard);
    message.append(" code: ");
    message.append(code);
    Error::parse_error(message.as_str())
}

impl Language {
    /// Construct a new instance from an ISO 639-1 language code.
    pub fn from_639_1(code: &str) -> (r: Result<Language, Error>)
        ensures
            match iso_639_3_of_1(code@) {
                Some(found) => r is Ok && r->Ok_0.deep_view() == found,
                None => r is Err && r->Err_0@ == invalid_code("639-1"@, code@),
            },
    {
        match lookup_639_1(code) {
            Some(found) => Ok(Language { code: found }),
            None => Err(invalid("639-1", code)),
        }
    }

    /// Construct a new instance from an ISO 639-3 language code.
    ///
    /// These are used by MusicBrainz internally.
    pub fn from_639_3(code: &str) -> (r: Result<Language, Error>)
        ensures
            match iso_639_3(code@) {
                Some(found) => r is Ok && r->Ok_0.deep_view() == found && found == code@,
                None => r is Err && r->Err_0@ == invalid_code("639-3"@, code@),
            },
    {
        match lookup_639_3(code) {
            Some(found) => Ok(Language { code: found }),
            None => Err(invalid("639-3", code)),
        }
    }

    /// Return the ISO 639-1 language code.
    pub fn to_639_1(&self) -> (r: Option<String>)
        ensures
            text_of(r) == iso_639_1_of_3(self.deep_view()),
    {
        short_code(self.code.as_str())
    }

    /// Return the ISO 639-3 language code.
    pub fn to_639_3(&self) -> (code: &str)
        ensures
            code@ == self.deep_view(),
    {
        self.code.as_str()
    }

    /// The ISO 639-3 language code, as search fields need it.
    pub fn to_string(&self) -> (code: String)
        ensures
            code@ == self.deep_view(),
    {
        self.code.clone()
    }
}

impl FromXmlOptional for Language {
    /// A missing or empty node is no language; any other text has to be a
    /// three-letter code.
    open spec fn from_xml_optional_spec(doc: DocumentModel, nodes: Seq<char>) -> Result<
        Option<Seq<char>>,
        ErrorModel,
    > {
        match doc.optional_text(nodes) {
            Err(e) => Err(e),
            Ok(None) => Ok(None),
            Ok(Some(code)) => match iso_639_3(code) {
                Some(found) => Ok(Some(found)),
                None => Err(
                    decode_failure(
                        "parse language error: "@ + invalid_code("639-3"@, code).message,
                    ),
                ),
            },
        }
    }

    fn from_xml_optional(doc: &Document, nodes: &str) -> (r: Result<Option<Language>, Error>) {
        match doc.optional_text(nodes)? {
            None => Ok(None),
            Some(code) => match Language::from_639_3(code.as_str()) {
                Ok(language) => Ok(Some(language)),
                Err(e) => {
                    let detail = appended("parse language error: ", e.message());
                    Err(failure(detail.as_str()))
                },
            },
        }
    }
}

impl FromXml for Language {
    open spec fn from_xml_spec(doc: DocumentModel, nodes: Seq<char>) -> Result<
        Seq<char>,
        ErrorModel,
    > {
        required_spec::<Language>(doc, nodes)
    }

    fn from_xml(doc: &Document, nodes: &str) -> (r: Result<Language, Error>) {
        required::<Language>(doc, nodes)
    }
}

} // verus!
