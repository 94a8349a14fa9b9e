//! The two pure ends of a fetch: the address a record is requested from, and
//! the decoding of what came back.
//!
//! A fetch builds the request from the caller's options, asks for the
//! address built here, and hands the body of the final response to
//! [`decode`]. A body that carries an error message of the server is
//! recognised before anything else is read from it.

use vstd::prelude::*;
use vstd::utf8::{encode_utf8, valid_utf8};
use crate::client::{include_list, lookup_url};
use crate::entities::{Mbid, Resource};
use crate::error::{Error, ErrorKind, ErrorModel};
use crate::text::{join, join_spec};
use crate::xml::{bindings_of, root_spec, Document, DocumentModel, FromXml};

verus! {

/// The prefix under which paths name the elements of a response, and the
/// namespace it stands for.
pub open spec fn context_spec() -> Seq<(Seq<char>, Seq<char>)> {
    seq![("mb"@, "http://musicbrainz.org/ns/mmd-2.0#"@)]
}

/// The namespace bindings with which responses are read.
pub fn musicbrainz_context() -> (context: Vec<(String, String)>)
    ensures
        bindings_of(context@) == context_spec(),
{
    let mut context: Vec<(String, String)> = Vec::new();
    context.push((String::from_str("mb"), String::from_str("http://musicbrainz.org/ns/mmd-2.0#")));
    assert(bindings_of(context@) == context_spec());
    context
}

/// The error message that a document carries, if it carries one: the lines
/// found at the place where the server puts them, joined with newlines. A
/// document that cannot be read carries none.
pub open spec fn response_error_spec(doc: DocumentModel) -> Option<ErrorModel> {
    match doc.texts("//error/text"@) {
        Ok(lines) => if lines.len() > 0 {
            Some(ErrorModel { message: join_spec(lines, "\n"@), kind: ErrorKind::ServerError })
        } else {
            None
        },
        Err(_) => None,
    }
}

/// Checks if there is an error in the document and returns `Ok` if there
/// wasn't and `Err` with the server's message if the API actually returned
/// an error.
pub fn check_response_error(doc: &Document) -> (r: Result<(), Error>)
    ensures
        match response_error_spec(doc@) {
            Some(e) => r is Err && r->Err_0@ == e,
            None => r is Ok,
        },
{
    match doc.texts("//error/text") {
        Ok(lines) => {
            if lines.len() > 0 {
                assert(lines.deep_view() == crate::text::texts_of(lines@));
                let text = join(&lines, "\n");
                Err(Error::new(text.as_str(), ErrorKind::ServerError))
            } else {
                Ok(())
            }
        },
        Err(_) => Ok(()),
    }
}

/// What `url::Url::parse` makes of a text: the text of the address it reads,
/// or the words in which it refuses.
pub uninterp spec fn url_parsed(text: Seq<char>) -> Result<Seq<char>, Seq<char>>;

/// The mathematical content of the outcome of parsing an address.
pub open spec fn url_outcome(r: Result<String, String>) -> Result<Seq<char>, Seq<char>> {
    match r {
        Ok(url) => Ok(url@),
        Err(words) => Err(words@),
    }
}

/// Parses a text with `url::Url::parse` and hands back the serialization of
/// the address, or what the crate's error displays. The parser reads nothing
/// but its argument, so the outcome has a name.
#[verifier::external_body]
fn parse_url(text: &str) -> (r: Result<String, String>)
    ensures
        url_outcome(r) == url_parsed(text@),
{
    match url::Url::parse(text) {
        Ok(url) => Ok(url.into_string()),
        Err(e) => Err(e.to_string()),
    }
}

/// An address as it is requested: the text that the URL parser makes of it.
/// A text that it refuses was put together wrongly, which is an internal
/// failure.
pub open spec fn checked_url_spec(text: Seq<char>) -> Result<Seq<char>, ErrorModel> {
    match url_parsed(text) {
        Ok(url) => Ok(url),
        Err(words) => Err(ErrorModel { message: "url error: "@ + words, kind: ErrorKind::Internal }),
    }
}

/// Checks an address before it is requested.
pub fn checked_url(text: &str) -> (r: Result<String, Error>)
    ensures
        match checked_url_spec(text@) {
            Ok(url) => r is Ok && r->Ok_0@ == url,
            Err(e) => r is Err && r->Err_0@ == e,
        },
{
    match parse_url(text) {
        Ok(url) => Ok(url),
        Err(words) => {
            let message = crate::text::appended("url error: ", words.as_str());
            Err(Error::new(message.as_str(), ErrorKind::Internal))
        },
    }
}

/// `String::from_utf8`: the text that the bytes encode, if they are valid
/// UTF-8.
#[verifier::external_body]
fn utf8_text(bytes: Vec<u8>) -> (r: Option<String>)
    ensures
        r is Some <==> valid_utf8(bytes@),
        r matches Some(text) ==> encode_utf8(text@) == bytes@,
{
    match String::from_utf8(bytes) {
        Ok(text) => Some(text),
        Err(_) => None,
    }
}

/// The failure to read a response body as text.
pub open spec fn body_failure() -> ErrorModel {
    ErrorModel { message: "The response body is not valid UTF-8."@, kind: ErrorKind::Internal }
}

/// The body of a response as text. A response of any status has its body
/// read, since it may carry a message of the server.
pub fn body_text(body: Vec<u8>) -> (r: Result<String, Error>)
    ensures
        valid_utf8(body@) ==> r is Ok && encode_utf8(r->Ok_0@) == body@,
        !valid_utf8(body@) ==> r is Err && r->Err_0@ == body_failure(),
{
    match utf8_text(body) {
        Some(text) => Ok(text),
        None => Err(Error::new("The response body is not valid UTF-8.", ErrorKind::Internal)),
    }
}

/// The kind of the failure to decode a document: a server error where it
/// carries a message of the server, and else a parse failure of the
/// response.
pub open spec fn failure_kind(doc: DocumentModel) -> ErrorKind {
    if response_error_spec(doc) is Some {
        ErrorKind::ServerError
    } else {
        ErrorKind::ParseResponse
    }
}

/// The document that a response body is read as.
pub open spec fn response_document(body: Seq<char>) -> DocumentModel {
    DocumentModel { xml: body, namespaces: context_spec() }
}

/// What the body of a response decodes to: the server's error message where
/// it carries one, and else the fields of the record.
pub open spec fn decode_spec<Res: Resource>(body: Seq<char>) -> Result<
    <Res::Response as DeepView>::V,
    ErrorModel,
> {
    match response_error_spec(response_document(body)) {
        Some(e) => Err(e),
        None => Res::Response::from_xml_spec(response_document(body), root_spec()),
    }
}

/// The address from which a record is fetched with the given options.
pub open spec fn fetch_url_spec<Res: Resource>(mbid: Mbid, options: &Res::Options) -> Seq<char> {
    lookup_url(Res::name_spec(), mbid, include_list(Res::toggles_spec(options)))
}

/// The address from which a record is fetched with the given options.
pub fn fetch_url<Res: Resource>(mbid: &Mbid, options: &Res::Options) -> (url: String)
    ensures
        url@ == fetch_url_spec::<Res>(*mbid, options),
{
    let request = Res::request(options);
    request.get_by_mbid_url(mbid)
}

/// Decodes the body of a response into a record, keeping the options it was
/// fetched with.
///
/// A body that carries a message of the server is a server error. Any other
/// body that does not decode, because it is no document or because it does
/// not have the shape of the record, is a parse failure of the response.
pub fn decode<Res: Resource>(body: &str, options: Res::Options) -> (r: Result<Res, Error>)
    ensures
        match decode_spec::<Res>(body@) {
            Ok(fields) => r is Ok && r->Ok_0.response_spec().deep_view() == fields
                && r->Ok_0.options_spec() == options,
            Err(e) => r is Err && r->Err_0@ == e,
        },
        r matches Err(e) ==> e@.kind == failure_kind(response_document(body@)),
{
    let doc = Document::new(String::from_str(body), musicbrainz_context());
    check_response_error(&doc)?;
    let mut root: Vec<char> = Vec::new();
    root.push('/');
    let root = crate::text::string_of(&root);
    let response = Res::Response::from_xml(&doc, root.as_str())?;
    Ok(Res::from_response(response, options))
}

/// What the body of a response decodes to, for a record that is always
/// fetched with the same parts.
pub open spec fn decode_old_spec<Res: FromXml>(body: Seq<char>) -> Result<
    <Res as DeepView>::V,
    ErrorModel,
> {
    match response_error_spec(response_document(body)) {
        Some(e) => Err(e),
        None => Res::from_xml_spec(response_document(body), root_spec()),
    }
}

/// Decodes the body of a response into a record that is always fetched with
/// the same parts.
pub fn decode_old<Res: FromXml>(body: &str) -> (r: Result<Res, Error>)
    ensures
        crate::xml::agrees(r, decode_old_spec::<Res>(body@)),
        r matches Err(e) ==> e@.kind == failure_kind(response_document(body@)),
{
    let doc = Document::new(String::from_str(body), musicbrainz_context());
    check_response_error(&doc)?;
    let mut root: Vec<char> = Vec::new();
    root.push('/');
    let root = crate::text::string_of(&root);
    Res::from_xml(&doc, root.as_str())
}

/// An error message of the server takes precedence: a body that carries one
/// decodes to a server error with that message, whatever else it holds.
pub proof fn lemma_error_payload_first<Res: Resource>(body: Seq<char>)
    requires
        response_document(body).texts("//error/text"@) is Ok,
        response_document(body).texts("//error/text"@)->Ok_0.len() > 0,
    ensures
        decode_spec::<Res>(body) == Err::<<Res::Response as DeepView>::V, ErrorModel>(
            ErrorModel {
                message: join_spec(
                    response_document(body).texts("//error/text"@)->Ok_0,
                    "\n"@,
                ),
                kind: ErrorKind::ServerError,
            },
        ),
        !ErrorKind::ServerError.spec_is_bug(),
{
}

/// A body without an error message decodes to whatever its fields decode to,
/// and a failure there is a parse failure of the response.
pub proof fn lemma_plain_body_decodes<Res: Resource>(body: Seq<char>)
    requires
        response_error_spec(response_document(body)) is None,
    ensures
        decode_spec::<Res>(body) == Res::Response::from_xml_spec(
            response_document(body),
            root_spec(),
        ),
{
}

} // verus!
