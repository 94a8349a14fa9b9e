//! Escaping of query text.
//!
//! A value that is searched for passes three stages before it stands in a
//! URL: the characters that the query language gives a meaning are escaped
//! with a backslash, the result is percent-encoded, and finally `&` and `=`,
//! which percent-encoding leaves alone but which would end the query
//! parameter, are encoded as well.

use vstd::prelude::*;
use vstd::utf8::encode_utf8;
use std::marker::PhantomData;
use crate::search::search_entities::SearchEntity;
use crate::text::{chars_of, string_of};

verus! {

/// The characters with a meaning in the query language.
pub open spec fn is_lucene_special(c: char) -> bool {
    c == '+' || c == '-' || c == '!' || c == '(' || c == ')' || c == '{' || c == '}' || c == '['
        || c == ']' || c == '^' || c == '"' || c == '~' || c == '*' || c == '?' || c == ':' || c
        == '\\'
}

/// The two characters of which any pair is an operator of the query language.
pub open spec fn is_connective(c: char) -> bool {
    c == '&' || c == '|'
}

/// The text with a backslash before every special character and before
/// every pair of connectives. The text is read from the left; a connective
/// that is part of a pair is not looked at again.
pub open spec fn lucene_escaped(text: Seq<char>) -> Seq<char>
    decreases text.len(),
{
    if text.len() == 0 {
        Seq::empty()
    } else if is_lucene_special(text[0]) {
        seq!['\\', text[0]] + lucene_escaped(text.skip(1))
    } else if text.len() >= 2 && is_connective(text[0]) && is_connective(text[1]) {
        seq!['\\', text[0], text[1]] + lucene_escaped(text.skip(2))
    } else {
        seq![text[0]] + lucene_escaped(text.skip(1))
    }
}

/// The bytes that are percent-encoded: controls, everything beyond `~`, and
/// the characters space, `"`, `#`, `<`, `>`, `` ` ``, `?`, `{` and `}`.
pub open spec fn in_encode_set(b: u8) -> bool {
    b < 0x20 || b > 0x7e || b == 0x20 || b == 0x22 || b == 0x23 || b == 0x3c || b == 0x3e || b
        == 0x60 || b == 0x3f || b == 0x7b || b == 0x7d
}

/// The upper-case hexadecimal digit for a value below 16.
pub open spec fn upper_hex_char(d: int) -> char {
    if d < 10 {
        (d + '0' as int) as char
    } else {
        (d - 10 + 'A' as int) as char
    }
}

/// A byte as it stands in a URL: itself, or `%` and its two hexadecimal
/// digits.
pub open spec fn percent_encoded_byte(b: u8) -> Seq<char> {
    if in_encode_set(b) {
        seq!['%', upper_hex_char(b as int / 16), upper_hex_char(b as int % 16)]
    } else {
        seq![b as char]
    }
}

/// The bytes as they stand in a URL.
pub open spec fn percent_encoded(bytes: Seq<u8>) -> Seq<char>
    decreases bytes.len(),
{
    if bytes.len() == 0 {
        Seq::empty()
    } else {
        percent_encoded(bytes.drop_last()) + percent_encoded_byte(bytes.last())
    }
}

/// The text with `&` and `=` percent-encoded.
pub open spec fn separators_encoded(text: Seq<char>) -> Seq<char>
    decreases text.len(),
{
    if text.len() == 0 {
        Seq::empty()
    } else if text.last() == '&' {
        separators_encoded(text.drop_last()) + seq!['%', '2', '6']
    } else if text.last() == '=' {
        separators_encoded(text.drop_last()) + seq!['%', '3', 'D']
    } else {
        separators_encoded(text.drop_last()).push(text.last())
    }
}

/// A text as it stands in the query part of a URL.
pub open spec fn escape_query_spec(text: Seq<char>) -> Seq<char> {
    percent_encoded(encode_utf8(text))
}

/// A searched value as it stands in the query part of a URL.
pub open spec fn escape_full_spec(text: Seq<char>) -> Seq<char> {
    separators_encoded(escape_query_spec(lucene_escaped(text)))
}

/// Percent-encodes the UTF-8 bytes of a text with
/// `url::percent_encoding::utf8_percent_encode` and the crate's
/// `DEFAULT_ENCODE_SET`.
///
/// That set holds the bytes below `0x20` and above `0x7E` and the nine
/// characters listed at [`in_encode_set`]. A byte of the set is written as
/// `%` and two upper-case hexadecimal digits, any other byte as the ASCII
/// character it is.
#[verifier::external_body]
fn percent_encode(text: &str) -> (s: String)
    ensures
        s@ == percent_encoded(encode_utf8(text@)),
{
    url::percent_encoding::utf8_percent_encode(text, url::percent_encoding::DEFAULT_ENCODE_SET)
        .to_string()
}

/// Percent-encodes what cannot stand in the query part of a URL.
pub fn escape_query(text: &str) -> (s: String)
    ensures
        s@ == escape_query_spec(text@),
{
    percent_encode(text)
}

fn special(c: char) -> (b: bool)
    ensures
        b == is_lucene_special(c),
{
    c == '+' || c == '-' || c == '!' || c == '(' || c == ')' || c == '{' || c == '}' || c == '['
        || c == ']' || c == '^' || c == '"' || c == '~' || c == '*' || c == '?' || c == ':' || c
        == '\\'
}

/// Puts a backslash before everything that has a meaning in the query
/// language.
pub fn escape_lucene(text: &str) -> (s: String)
    ensures
        s@ == lucene_escaped(text@),
{
    let chars = chars_of(text);
    let n = chars.len();
    let mut out: Vec<char> = Vec::new();
    let mut i: usize = 0;
    assert(chars@.skip(0) == chars@);
    while i < n
        invariant
            n == chars.len(),
            i <= n,
            out@ + lucene_escaped(chars@.skip(i as int)) == lucene_escaped(chars@),
        decreases n - i,
    {
        let c = chars[i];
        let ghost rest = chars@.skip(i as int);
        let ghost before = out@;
        assert(rest[0] == c);
        if special(c) {
            out.push('\\');
            out.push(c);
            assert(rest.skip(1) == chars@.skip(i + 1));
            assert(out@ + lucene_escaped(rest.skip(1)) == before + (seq!['\\', c]
                + lucene_escaped(rest.skip(1))));
            i += 1;
        } else if i + 1 < n && (c == '&' || c == '|') && (chars[i + 1] == '&' || chars[i + 1]
            == '|') {
            let d = chars[i + 1];
            assert(rest[1] == d);
            out.push('\\');
            out.push(c);
            out.push(d);
            assert(rest.skip(2) == chars@.skip(i + 2));
            assert(out@ + lucene_escaped(rest.skip(2)) == before + (seq!['\\', c, d]
                + lucene_escaped(rest.skip(2))));
            i += 2;
        } else {
            out.push(c);
            assert(rest.skip(1) == chars@.skip(i + 1));
            assert(out@ + lucene_escaped(rest.skip(1)) == before + (seq![c] + lucene_escaped(
                rest.skip(1),
            )));
            i += 1;
        }
    }
    assert(out@ + Seq::<char>::empty() == out@);
    string_of(&out)
}

/// Percent-encodes `&` and `=`.
pub fn encode_separators(text: &str) -> (s: String)
    ensures
        s@ == separators_encoded(text@),
{
    let chars = chars_of(text);
    let mut out: Vec<char> = Vec::new();
    let mut i: usize = 0;
    assert(chars@.subrange(0, 0) == Seq::<char>::empty());
    while i < chars.len()
        invariant
            i <= chars.len(),
            out@ == separators_encoded(chars@.subrange(0, i as int)),
        decreases chars.len() - i,
    {
        let c = chars[i];
        proof {
            let upto = chars@.subrange(0, i + 1);
            assert(upto.drop_last() == chars@.subrange(0, i as int));
            assert(upto.last() == c);
        }
        let ghost before = out@;
        if c == '&' {
            out.push('%');
            out.push('2');
            out.push('6');
            assert(out@ == before + seq!['%', '2', '6']);
        } else if c == '=' {
            out.push('%');
            out.push('3');
            out.push('D');
            assert(out@ == before + seq!['%', '3', 'D']);
        } else {
            out.push(c);
        }
        i += 1;
    }
    assert(chars@.subrange(0, i as int) == chars@);
    string_of(&out)
}

/// Escape all lucene special characters and then escape the result so it can
/// be used for a url string.
///
/// This is to be used for attribute values, like for example a release name.
pub fn escape_full(text: &str) -> (s: String)
    ensures
        s@ == escape_full_spec(text@),
{
    let sanitized = escape_lucene(text);
    let encoded = escape_query(sanitized.as_str());
    encode_separators(encoded.as_str())
}

/// A query for entities of one kind, in the query language of the search
/// server, as the caller wrote it.
#[derive(Debug)]
pub struct Query<Entity: SearchEntity> {
    /// Provided as Lucene text search query, yet to be escaped to be sent as
    /// URL parameter.
    unescaped: String,
    _entity_type: PhantomData<Entity>,
}

impl<Entity: SearchEntity> Query<Entity> {
    /// The query as the caller wrote it.
    pub closed spec fn text_spec(&self) -> Seq<char> {
        self.unescaped@
    }

    /// Create a new Query instance from a manual specification of a search
    /// query.
    pub fn from_query(query: &str) -> (q: Self)
        ensures
            q.text_spec() == query@,
    {
        Query { unescaped: String::from_str(query), _entity_type: PhantomData }
    }

    /// The query as the caller wrote it.
    pub fn unescaped(&self) -> (s: &str)
        ensures
            s@ == self.text_spec(),
    {
        self.unescaped.as_str()
    }

    /// The query as it stands in the query part of a URL.
    pub fn escaped(&self) -> (s: String)
        ensures
            s@ == escape_query_spec(self.text_spec()),
    {
        escape_query(self.unescaped.as_str())
    }
}

} // verus!
