//! Reading values out of an XML document by XPath.
//!
//! A document is its text together with the namespace prefixes that paths may
//! use. A set of nodes is named by an XPath expression; the root of the
//! document is `/`. Everything a record is decoded from comes out of
//! [`Document::texts`], which evaluates such an expression and gives the text
//! of each selected node in document order.
//!
//! Only plain paths are evaluated: names, `/`, `//`, `.`, `@`, the node test
//! `text()`, grouping in parentheses and positions in brackets, with every
//! prefix bound. Anything else is answered with a failure. What is kept out
//! are the parts of XPath whose outcome the XPath library leaves to the order
//! of a hash table (the function `name`, the function `sum`, the namespace
//! axis) or on which it panics (a prefix that is not bound).
//!
//! No bound on the nesting of a document is promised. The XPath library
//! descends into a document by recursion, one call for each level of
//! nesting, so a document that is nested deeper than the stack of the calling
//! thread allows ends the process. The contracts here speak of calls that
//! return.

use vstd::prelude::*;
use crate::error::{Error, ErrorKind, ErrorModel};
use crate::text::{appended, chars_of, decimal_chars, decimal_digits, string_of, texts_of};

verus! {

/// An XML document and the namespace prefixes its paths are written with.
pub struct Document {
    pub xml: String,
    /// Pairs of prefix and namespace URI.
    pub namespaces: Vec<(String, String)>,
}

/// Mathematical content of a [`Document`].
pub struct DocumentModel {
    pub xml: Seq<char>,
    pub namespaces: Seq<(Seq<char>, Seq<char>)>,
}

/// The prefix and URI pairs held by a vector of bindings.
pub open spec fn bindings_of(v: Seq<(String, String)>) -> Seq<(Seq<char>, Seq<char>)> {
    Seq::new(v.len(), |i: int| (v[i].0@, v[i].1@))
}

impl View for Document {
    type V = DocumentModel;

    open spec fn view(&self) -> DocumentModel {
        DocumentModel { xml: self.xml@, namespaces: bindings_of(self.namespaces@) }
    }
}

/// The letters of which prefixes are made.
pub open spec fn is_ascii_letter(c: char) -> bool {
    ('a' <= c && c <= 'z') || ('A' <= c && c <= 'Z')
}

/// Where the run of letters begins that ends just before position `end`.
pub open spec fn letters_start(s: Seq<char>, end: int) -> int
    decreases end,
{
    if 0 < end <= s.len() && is_ascii_letter(s[end - 1]) {
        letters_start(s, end - 1)
    } else {
        end
    }
}

/// Whether the colon at position `at` follows a prefix that is bound: a run
/// of letters that is one of `prefixes` and that stands at the start of the
/// expression or behind one of `/`, `@`, `(` and `[`. A second colon must not
/// follow, which keeps axis names out.
pub open spec fn colon_follows_prefix(s: Seq<char>, prefixes: Seq<Seq<char>>, at: int) -> bool {
    let start = letters_start(s, at);
    &&& start < at
    &&& (at + 1 < s.len() ==> s[at + 1] != ':')
    &&& (start == 0 || s[start - 1] == '/' || s[start - 1] == '@' || s[start - 1] == '(' || s[start
        - 1] == '[')
    &&& exists|k: int| 0 <= k < prefixes.len() && #[trigger] prefixes[k] == s.subrange(start, at)
}

/// Whether an expression can be evaluated: every colon in it follows a bound
/// prefix.
///
/// The XPath library gives up on a name whose prefix is not bound, and it
/// leaves the order of namespace nodes open; both are kept out by this.
pub open spec fn well_prefixed(s: Seq<char>, prefixes: Seq<Seq<char>>) -> bool {
    forall|at: int| 0 <= at < s.len() && s[at] == ':' ==> colon_follows_prefix(s, prefixes, at)
}

/// The prefixes of a sequence of bindings.
pub open spec fn prefixes_of(namespaces: Seq<(Seq<char>, Seq<char>)>) -> Seq<Seq<char>> {
    Seq::new(namespaces.len(), |i: int| namespaces[i].0)
}

/// The characters of which plain paths are made.
pub open spec fn is_path_char(c: char) -> bool {
    is_ascii_letter(c) || ('0' <= c && c <= '9') || c == '/' || c == '.' || c == '@' || c == ':'
        || c == '-' || c == '_' || c == '(' || c == ')' || c == '[' || c == ']'
}

/// Whether the parenthesis at position `at` opens a group: it stands at the
/// start of the expression or behind another `(` or a `[`.
pub open spec fn opens_group(s: Seq<char>, at: int) -> bool {
    at == 0 || s[at - 1] == '(' || s[at - 1] == '['
}

/// Whether the parenthesis at position `at` is that of the node test
/// `text()` behind a slash.
pub open spec fn opens_text_test(s: Seq<char>, at: int) -> bool {
    &&& at >= 5
    &&& s.subrange(at - 5, at) == seq!['/', 't', 'e', 'x', 't']
    &&& at + 1 < s.len()
    &&& s[at + 1] == ')'
}

/// Whether an expression calls no function: every `(` in it opens a group
/// or belongs to `/text()`. A function call is a name directly before a
/// `(`, so none is left.
pub open spec fn calls_nothing(s: Seq<char>) -> bool {
    forall|at: int|
        0 <= at < s.len() && s[at] == '(' ==> opens_group(s, at) || opens_text_test(s, at)
}

/// Whether an expression is made of path characters alone, which leaves out
/// white space, literals, variables and operators.
pub open spec fn only_path_chars(s: Seq<char>) -> bool {
    forall|at: int| 0 <= at < s.len() ==> is_path_char(#[trigger] s[at])
}

/// Whether an expression is a plain path that can be evaluated: path
/// characters alone, every colon behind a bound prefix, and no function
/// call.
pub open spec fn admissible(s: Seq<char>, prefixes: Seq<Seq<char>>) -> bool {
    only_path_chars(s) && well_prefixed(s, prefixes) && calls_nothing(s)
}

/// What `xpath_reader::Reader::read::<Vec<String>>` gives for an admissible
/// expression `nodes` on the document `xml`, read with the given prefix
/// bindings: the string value of every selected node, in document order, or
/// the text of the error. Nothing is said of it on other expressions.
pub uninterp spec fn xpath_texts(
    xml: Seq<char>,
    namespaces: Seq<(Seq<char>, Seq<char>)>,
    nodes: Seq<char>,
) -> Result<Seq<Seq<char>>, Seq<char>>;

/// The mathematical content of an evaluation's outcome.
pub open spec fn outcome_of(r: Result<Vec<String>, String>) -> Result<Seq<Seq<char>>, Seq<char>> {
    match r {
        Ok(texts) => Ok(texts_of(texts@)),
        Err(message) => Err(message@),
    }
}

/// Parses `xml` with `xpath_reader::Reader::from_str`, with the prefixes
/// bound in the context, and reads the expression `nodes` as a vector of
/// strings. A failure of either step is handed back as the text that the
/// crate's error displays.
///
/// On an admissible expression both steps depend on their arguments alone,
/// so the outcome has a name: the document is parsed into a tree whose nodes
/// are kept in the order of the text, and the selected nodes are sorted by
/// that order before their values are taken. What the expression must not
/// reach is kept out by `requires`:
/// - namespace nodes, which have no place in that order (no `::`);
/// - the core functions, of which `name` looks a prefix up in a hash table
///   and `sum` adds in the order of one (no function call at all);
/// - a name with a prefix that is not bound, on which the evaluation panics.
///
/// The evaluation recurses once for each level of nesting of the document;
/// no bound on that nesting is stated here, and the contract speaks of calls
/// that return.
#[verifier::external_body]
fn evaluate(xml: &str, namespaces: &Vec<(String, String)>, nodes: &str) -> (r: Result<
    Vec<String>,
    String,
>)
    requires
        admissible(nodes@, prefixes_of(bindings_of(namespaces@))),
    ensures
        outcome_of(r) == xpath_texts(xml@, bindings_of(namespaces@), nodes@),
{
    let mut context = xpath_reader::Context::default();
    for binding in namespaces.iter() {
        context.set_namespace(binding.0.as_str(), binding.1.as_str());
    }
    let reader = match xpath_reader::Reader::from_str(xml, Some(&context)) {
        Ok(reader) => reader,
        Err(e) => return Err(e.to_string()),
    };
    let texts: Result<Vec<String>, xpath_reader::Error> = reader.read(nodes);
    texts.map_err(|e| e.to_string())
}

/// The expression that names the root of a document.
pub open spec fn root_spec() -> Seq<char> {
    seq!['/']
}

/// The nodes that `path` selects, starting from the first of `nodes`.
pub open spec fn child_spec(nodes: Seq<char>, path: Seq<char>) -> Seq<char> {
    seq!['('] + nodes + seq![')', '[', '1', ']', '/'] + path
}

/// The node at position `index` of `nodes`, counted from zero in document
/// order.
pub open spec fn nth_spec(nodes: Seq<char>, index: nat) -> Seq<char> {
    seq!['('] + nodes + seq![')', '['] + decimal_digits(index + 1) + seq![']']
}

/// A failure to decode, with the given detail.
pub open spec fn decode_failure(detail: Seq<char>) -> ErrorModel {
    ErrorModel { message: "xpath_reader error: "@ + detail, kind: ErrorKind::ParseResponse }
}

/// Whether a result, where it is a failure, is a parse failure of the
/// response.
pub open spec fn fails_as_parse_failure<T>(r: Result<T, Error>) -> bool {
    r matches Err(e) ==> e@.kind == ErrorKind::ParseResponse
}

/// Whether a decoded result is the one the model calls for.
pub open spec fn agrees<T: DeepView>(r: Result<T, Error>, model: Result<T::V, ErrorModel>) -> bool {
    match model {
        Ok(value) => r is Ok && r->Ok_0.deep_view() == value,
        Err(e) => r is Err && r->Err_0@ == e,
    }
}

impl DocumentModel {
    /// The texts of the selected nodes, in document order. An expression
    /// that is not admissible is a failure.
    pub open spec fn texts(self, nodes: Seq<char>) -> Result<Seq<Seq<char>>, ErrorModel> {
        if !admissible(nodes, prefixes_of(self.namespaces)) {
            Err(decode_failure("Only plain paths with bound prefixes are evaluated."@))
        } else {
            match xpath_texts(self.xml, self.namespaces, nodes) {
                Ok(texts) => Ok(texts),
                Err(detail) => Err(decode_failure(detail)),
            }
        }
    }

    /// The text of the first selected node. It is a failure if there is none.
    pub open spec fn text(self, nodes: Seq<char>) -> Result<Seq<char>, ErrorModel> {
        match self.texts(nodes) {
            Ok(texts) => if texts.len() > 0 {
                Ok(texts[0])
            } else {
                Err(decode_failure("Missing (anchor) node."@))
            },
            Err(e) => Err(e),
        }
    }

    /// The text of the first selected node, if there is one and its text is
    /// not empty.
    pub open spec fn optional_text(self, nodes: Seq<char>) -> Result<
        Option<Seq<char>>,
        ErrorModel,
    > {
        match self.texts(nodes) {
            Ok(texts) => if texts.len() > 0 && texts[0].len() > 0 {
                Ok(Some(texts[0]))
            } else {
                Ok(None)
            },
            Err(e) => Err(e),
        }
    }

    /// The number of selected nodes.
    pub open spec fn count(self, nodes: Seq<char>) -> Result<nat, ErrorModel> {
        match self.texts(nodes) {
            Ok(texts) => Ok(texts.len()),
            Err(e) => Err(e),
        }
    }
}

/// A value that can be decoded from a set of nodes of a document.
pub trait FromXml: Sized + DeepView {
    /// What the nodes decode to.
    spec fn from_xml_spec(doc: DocumentModel, nodes: Seq<char>) -> Result<
        <Self as DeepView>::V,
        ErrorModel,
    >;

    /// Decodes a value from the nodes that the expression `nodes` selects.
    /// Whatever keeps the value from being decoded is a parse failure of the
    /// response.
    fn from_xml(doc: &Document, nodes: &str) -> (r: Result<Self, Error>)
        ensures
            agrees(r, Self::from_xml_spec(doc@, nodes@)),
            fails_as_parse_failure(r),
    ;
}

/// A value that may be absent from a document without that being a failure.
pub trait FromXmlOptional: Sized + DeepView {
    /// What the nodes decode to; `None` where there is nothing to decode.
    spec fn from_xml_optional_spec(doc: DocumentModel, nodes: Seq<char>) -> Result<
        Option<<Self as DeepView>::V>,
        ErrorModel,
    >;

    /// Decodes a value from the nodes that the expression `nodes` selects,
    /// if there is one. Whatever keeps a value that is there from being
    /// decoded is a parse failure of the response.
    fn from_xml_optional(doc: &Document, nodes: &str) -> (r: Result<Option<Self>, Error>)
        ensures
            agrees(r, Self::from_xml_optional_spec(doc@, nodes@)),
            fails_as_parse_failure(r),
    ;
}

/// The values of the first `count` selected nodes, each decoded on its own,
/// or the failure of the first node that does not decode.
pub open spec fn list_prefix_spec<T: FromXml>(
    doc: DocumentModel,
    nodes: Seq<char>,
    count: nat,
) -> Result<Seq<<T as DeepView>::V>, ErrorModel>
    decreases count,
{
    if count == 0 {
        Ok(Seq::empty())
    } else {
        match list_prefix_spec::<T>(doc, nodes, (count - 1) as nat) {
            Err(e) => Err(e),
            Ok(values) => match T::from_xml_spec(doc, nth_spec(nodes, (count - 1) as nat)) {
                Err(e) => Err(e),
                Ok(value) => Ok(values.push(value)),
            },
        }
    }
}

/// The values of all selected nodes, in document order.
pub open spec fn list_spec<T: FromXml>(doc: DocumentModel, nodes: Seq<char>) -> Result<
    Seq<<T as DeepView>::V>,
    ErrorModel,
> {
    match doc.count(nodes) {
        Err(e) => Err(e),
        Ok(count) => list_prefix_spec::<T>(doc, nodes, count),
    }
}

/// The value of a node that has to be there.
pub open spec fn required_spec<T: FromXmlOptional>(doc: DocumentModel, nodes: Seq<char>) -> Result<
    <T as DeepView>::V,
    ErrorModel,
> {
    match T::from_xml_optional_spec(doc, nodes) {
        Err(e) => Err(e),
        Ok(Some(value)) => Ok(value),
        Ok(None) => Err(decode_failure("Missing value."@)),
    }
}

fn is_letter(c: char) -> (b: bool)
    ensures
        b == is_ascii_letter(c),
{
    ('a' <= c && c <= 'z') || ('A' <= c && c <= 'Z')
}

/// Whether the characters of `text` from `start` up to `end` are those of
/// `word`.
fn same_range(text: &Vec<char>, start: usize, end: usize, word: &Vec<char>) -> (b: bool)
    requires
        start <= end <= text.len(),
    ensures
        b == (text@.subrange(start as int, end as int) == word@),
{
    if word.len() != end - start {
        return false;
    }
    let mut k: usize = 0;
    while k < word.len()
        invariant
            start <= end <= text.len(),
            word.len() == end - start,
            k <= word.len(),
            forall|j: int| 0 <= j < k ==> text@[start + j] == word@[j],
        decreases word.len() - k,
    {
        if text[start + k] != word[k] {
            assert(text@.subrange(start as int, end as int)[k as int] != word@[k as int]);
            return false;
        }
        k += 1;
    }
    assert(text@.subrange(start as int, end as int) == word@);
    true
}

/// Whether the characters of `text` from `start` up to `end` are a bound
/// prefix.
fn is_bound(text: &Vec<char>, start: usize, end: usize, namespaces: &Vec<(String, String)>) -> (b:
    bool)
    requires
        start <= end <= text.len(),
    ensures
        b == (exists|k: int|
            0 <= k < namespaces.len() && #[trigger] prefixes_of(bindings_of(namespaces@))[k]
                == text@.subrange(start as int, end as int)),
{
    let ghost prefixes = prefixes_of(bindings_of(namespaces@));
    let mut k: usize = 0;
    while k < namespaces.len()
        invariant
            start <= end <= text.len(),
            k <= namespaces.len(),
            prefixes == prefixes_of(bindings_of(namespaces@)),
            forall|j: int|
                0 <= j < k ==> #[trigger] prefixes[j] != text@.subrange(start as int, end as int),
        decreases namespaces.len() - k,
    {
        let prefix = chars_of(namespaces[k].0.as_str());
        assert(prefixes[k as int] == prefix@);
        if same_range(text, start, end, &prefix) {
            return true;
        }
        k += 1;
    }
    false
}

/// Whether every colon of an expression follows a bound prefix.
pub fn is_well_prefixed(nodes: &str, namespaces: &Vec<(String, String)>) -> (b: bool)
    ensures
        b == well_prefixed(nodes@, prefixes_of(bindings_of(namespaces@))),
{
    let text = chars_of(nodes);
    let n = text.len();
    let ghost prefixes = prefixes_of(bindings_of(namespaces@));
    let mut start: usize = 0;
    let mut at: usize = 0;
    while at < n
        invariant
            text@ == nodes@,
            n == text.len(),
            start <= at <= n,
            prefixes == prefixes_of(bindings_of(namespaces@)),
            start == letters_start(text@, at as int),
            forall|i: int|
                0 <= i < at && text@[i] == ':' ==> colon_follows_prefix(text@, prefixes, i),
        decreases n - at,
    {
        let c = text[at];
        if c == ':' {
            let follows = start < at && (at + 1 >= n || text[at + 1] != ':') && (start == 0
                || text[start - 1] == '/' || text[start - 1] == '@' || text[start - 1] == '('
                || text[start - 1] == '[') && is_bound(&text, start, at, namespaces);
            if !follows {
                assert(!colon_follows_prefix(text@, prefixes, at as int));
                return false;
            }
        }
        if is_letter(c) {
            assert(letters_start(text@, at + 1) == letters_start(text@, at as int));
        } else {
            assert(letters_start(text@, at + 1) == at + 1);
            start = at + 1;
        }
        at += 1;
    }
    true
}

fn is_path_character(c: char) -> (b: bool)
    ensures
        b == is_path_char(c),
{
    is_letter(c) || ('0' <= c && c <= '9') || c == '/' || c == '.' || c == '@' || c == ':' || c
        == '-' || c == '_' || c == '(' || c == ')' || c == '[' || c == ']'
}

/// Whether the parenthesis at position `at` opens a group or belongs to
/// `/text()`.
fn paren_calls_nothing(text: &Vec<char>, at: usize) -> (b: bool)
    requires
        at < text.len(),
    ensures
        b == (opens_group(text@, at as int) || opens_text_test(text@, at as int)),
{
    if at == 0 || text[at - 1] == '(' || text[at - 1] == '[' {
        return true;
    }
    if at >= 5 && at + 1 < text.len() && text[at - 5] == '/' && text[at - 4] == 't' && text[at
        - 3] == 'e' && text[at - 2] == 'x' && text[at - 1] == 't' && text[at + 1] == ')' {
        assert(text@.subrange(at - 5, at as int) == seq!['/', 't', 'e', 'x', 't']);
        return true;
    }
    proof {
        if at >= 5 && text@.subrange(at - 5, at as int) == seq!['/', 't', 'e', 'x', 't'] {
            let word = text@.subrange(at - 5, at as int);
            assert(word[0] == text@[at - 5]);
            assert(word[1] == text@[at - 4]);
            assert(word[2] == text@[at - 3]);
            assert(word[3] == text@[at - 2]);
            assert(word[4] == text@[at - 1]);
        }
    }
    false
}

/// Whether an expression is a plain path that can be evaluated.
pub fn is_admissible(nodes: &str, namespaces: &Vec<(String, String)>) -> (b: bool)
    ensures
        b == admissible(nodes@, prefixes_of(bindings_of(namespaces@))),
{
    if !is_well_prefixed(nodes, namespaces) {
        return false;
    }
    let text = chars_of(nodes);
    let mut at: usize = 0;
    while at < text.len()
        invariant
            text@ == nodes@,
            at <= text.len(),
            forall|i: int| 0 <= i < at ==> is_path_char(#[trigger] text@[i]),
            forall|i: int|
                0 <= i < at && text@[i] == '(' ==> opens_group(text@, i) || opens_text_test(
                    text@,
                    i,
                ),
        decreases text.len() - at,
    {
        let c = text[at];
        if !is_path_character(c) {
            return false;
        }
        if c == '(' && !paren_calls_nothing(&text, at) {
            return false;
        }
        at += 1;
    }
    true
}

/// The expression for the nodes that `path` selects from the first of
/// `nodes`.
pub fn child(nodes: &str, path: &str) -> (s: String)
    ensures
        s@ == child_spec(nodes@, path@),
{
    let mut out: Vec<char> = Vec::new();
    out.push('(');
    let mut s = string_of(&out);
    s.append(nodes);
    s.push(')');
    s.push('[');
    s.push('1');
    s.push(']');
    s.push('/');
    s.append(path);
    assert(s@ == child_spec(nodes@, path@));
    s
}

/// The expression for the node at position `index` of `nodes`.
pub fn nth(nodes: &str, index: usize) -> (s: String)
    requires
        index < usize::MAX,
    ensures
        s@ == nth_spec(nodes@, index as nat),
{
    let mut out: Vec<char> = Vec::new();
    out.push('(');
    let mut s = string_of(&out);
    s.append(nodes);
    s.push(')');
    s.push('[');
    let digits = string_of(&decimal_chars((index + 1) as u64));
    s.append(digits.as_str());
    s.push(']');
    assert(s@ == nth_spec(nodes@, index as nat));
    s
}

/// A decoding failure with the given detail.
pub fn failure(detail: &str) -> (e: Error)
    ensures
        e@ == decode_failure(detail@),
{
    let message = appended("xpath_reader error: ", detail);
    Error::new(message.as_str(), ErrorKind::ParseResponse)
}

impl Document {
    /// A document with the given prefix bindings.
    pub fn new(xml: String, namespaces: Vec<(String, String)>) -> (doc: Document)
        ensures
            doc.xml == xml,
            doc.namespaces == namespaces,
    {
        Document { xml, namespaces }
    }

    /// The texts of the selected nodes, in document order.
    ///
    /// An expression that is no plain path with bound prefixes is answered
    /// with a failure and not evaluated. No bound on the nesting of the
    /// document is promised: the evaluation recurses once for each level, and
    /// the contract speaks of calls that return.
    pub fn texts(&self, nodes: &str) -> (r: Result<Vec<String>, Error>)
        ensures
            agrees(r, self@.texts(nodes@)),
    {
        if !is_admissible(nodes, &self.namespaces) {
            return Err(failure("Only plain paths with bound prefixes are evaluated."));
        }
        match evaluate(self.xml.as_str(), &self.namespaces, nodes) {
            Ok(texts) => {
                assert(texts.deep_view() == texts_of(texts@));
                Ok(texts)
            },
            Err(detail) => Err(failure(detail.as_str())),
        }
    }

    /// The text of the first selected node.
    pub fn text(&self, nodes: &str) -> (r: Result<String, Error>)
        ensures
            agrees(r, self@.text(nodes@)),
    {
        let texts = self.texts(nodes)?;
        if texts.len() > 0 {
            assert(texts.deep_view()[0] == texts[0]@);
            Ok(texts[0].clone())
        } else {
            Err(failure("Missing (anchor) node."))
        }
    }

    /// The text of the first selected node, if there is one and its text is
    /// not empty.
    pub fn optional_text(&self, nodes: &str) -> (r: Result<Option<String>, Error>)
        ensures
            agrees(r, self@.optional_text(nodes@)),
    {
        let texts = self.texts(nodes)?;
        if texts.len() > 0 {
            assert(texts.deep_view()[0] == texts[0]@);
            if texts[0].as_str().unicode_len() > 0 {
                return Ok(Some(texts[0].clone()));
            }
        }
        Ok(None)
    }

    /// The number of selected nodes.
    pub fn count(&self, nodes: &str) -> (r: Result<usize, Error>)
        ensures
            match self@.count(nodes@) {
                Ok(n) => r is Ok && r->Ok_0 == n,
                Err(e) => r is Err && r->Err_0@ == e,
            },
    {
        let texts = self.texts(nodes)?;
        Ok(texts.len())
    }

    /// Decodes the value that `path` leads to from the first of `nodes`.
    pub fn read<T: FromXml>(&self, nodes: &str, path: &str) -> (r: Result<T, Error>)
        ensures
            agrees(r, T::from_xml_spec(self@, child_spec(nodes@, path@))),
            fails_as_parse_failure(r),
    {
        let target = child(nodes, path);
        T::from_xml(self, target.as_str())
    }

    /// Decodes the value that `path` leads to from the first of `nodes`, if
    /// there is one.
    pub fn read_optional<T: FromXmlOptional>(&self, nodes: &str, path: &str) -> (r: Result<
        Option<T>,
        Error,
    >)
        ensures
            agrees(r, T::from_xml_optional_spec(self@, child_spec(nodes@, path@))),
            fails_as_parse_failure(r),
    {
        let target = child(nodes, path);
        T::from_xml_optional(self, target.as_str())
    }

    /// Decodes one value from each node that `path` leads to from the first
    /// of `nodes`.
    pub fn read_list<T: FromXml>(&self, nodes: &str, path: &str) -> (r: Result<Vec<T>, Error>)
        ensures
            agrees(r, list_spec::<T>(self@, child_spec(nodes@, path@))),
            fails_as_parse_failure(r),
    {
        let target = child(nodes, path);
        list(self, target.as_str())
    }
}

/// Decodes one value from each of the selected nodes.
pub fn list<T: FromXml>(doc: &Document, nodes: &str) -> (r: Result<Vec<T>, Error>)
    ensures
        agrees(r, list_spec::<T>(doc@, nodes@)),
        fails_as_parse_failure(r),
{
    let count = doc.count(nodes)?;
    let mut values: Vec<T> = Vec::new();
    let mut i: usize = 0;
    assert(values.deep_view() == Seq::<<T as DeepView>::V>::empty());
    while i < count
        invariant
            i <= count,
            doc@.count(nodes@) == Ok::<nat, ErrorModel>(count as nat),
            list_prefix_spec::<T>(doc@, nodes@, i as nat) == Ok::<
                Seq<<T as DeepView>::V>,
                ErrorModel,
            >(values.deep_view()),
        decreases count - i,
    {
        let target = nth(nodes, i);
        match T::from_xml(doc, target.as_str()) {
            Ok(value) => {
                let ghost before = values.deep_view();
                values.push(value);
                assert(values.deep_view() == before.push(value.deep_view()));
            },
            Err(e) => {
                proof {
                    lemma_list_failure_stays::<T>(doc@, nodes@, (i + 1) as nat, count as nat);
                }
                return Err(e);
            },
        }
        i += 1;
    }
    Ok(values)
}

/// Once a prefix of the nodes fails to decode, every longer prefix fails in
/// the same way.
proof fn lemma_list_failure_stays<T: FromXml>(doc: DocumentModel, nodes: Seq<char>, k: nat, n: nat)
    requires
        k <= n,
        list_prefix_spec::<T>(doc, nodes, k) is Err,
    ensures
        list_prefix_spec::<T>(doc, nodes, n) == list_prefix_spec::<T>(doc, nodes, k),
    decreases n - k,
{
    if k < n {
        lemma_list_failure_stays::<T>(doc, nodes, k, (n - 1) as nat);
    }
}

/// Decodes a value that has to be there.
pub fn required<T: FromXmlOptional>(doc: &Document, nodes: &str) -> (r: Result<T, Error>)
    ensures
        agrees(r, required_spec::<T>(doc@, nodes@)),
        fails_as_parse_failure(r),
{
    match T::from_xml_optional(doc, nodes)? {
        Some(value) => Ok(value),
        None => Err(failure("Missing value.")),
    }
}

impl FromXml for String {
    open spec fn from_xml_spec(doc: DocumentModel, nodes: Seq<char>) -> Result<
        Seq<char>,
        ErrorModel,
    > {
        doc.text(nodes)
    }

    fn from_xml(doc: &Document, nodes: &str) -> (r: Result<String, Error>) {
        doc.text(nodes)
    }
}

impl FromXmlOptional for String {
    open spec fn from_xml_optional_spec(doc: DocumentModel, nodes: Seq<char>) -> Result<
        Option<Seq<char>>,
        ErrorModel,
    > {
        doc.optional_text(nodes)
    }

    fn from_xml_optional(doc: &Document, nodes: &str) -> (r: Result<Option<String>, Error>) {
        doc.optional_text(nodes)
    }
}

} // verus!
