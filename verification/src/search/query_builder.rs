//! Code to easily generate queries for entities in a type safe way.
//!
//! # Syntax Features
//! ## Wildcards
//! Terms and phrases can contain the following wildcards (except as the first
//! character of search):
//! - `?`: single character wildcard search
//! - `*`: multiple character wildcard search
//!
//! # Further documentation
//!
//! Find the basic documentation of the search syntax at:
//! https://musicbrainz.org/doc/Indexed_Search_Syntax

use vstd::prelude::*;
use crate::search::query::{escape_full, escape_full_spec};
use crate::text::{chars_of, decimal_chars, decimal_digits, is_decimal_digit, string_of};

verus! {

/// How two expressions are connected.
#[derive(Clone, Copy, Debug, PartialEq, Eq, Structural)]
pub enum OperatorKind {
    /// Either of the expressions has to hold.
    ///
    /// Lucene query: `(LHS) OR (RHS)`.
    Or,
    /// Both of the expressions have to hold.
    ///
    /// Lucene query: `(LHS) AND (RHS)`.
    And,
    /// The left hand side has to hold but the right hand side must not.
    ///
    /// Lucene query: `(LHS) NOT (RHS)`.
    Not,
}

impl OperatorKind {
    /// The word of the query language for this operator.
    pub open spec fn word_spec(self) -> Seq<char> {
        match self {
            OperatorKind::Or => "OR"@,
            OperatorKind::And => "AND"@,
            OperatorKind::Not => "NOT"@,
        }
    }

    /// The word of the query language for this operator.
    pub fn as_str(&self) -> (s: &'static str)
        ensures
            s@ == self.word_spec(),
    {
        match self {
            OperatorKind::Or => "OR",
            OperatorKind::And => "AND",
            OperatorKind::Not => "NOT",
        }
    }

    /// The word of the query language for this operator.
    pub fn to_string(&self) -> (s: String)
        ensures
            s@ == self.word_spec(),
    {
        String::from_str(self.as_str())
    }
}

/// A run of one or more decimal digits.
pub open spec fn is_digits(s: Seq<char>) -> bool {
    s.len() > 0 && forall|i: int| 0 <= i < s.len() ==> is_decimal_digit(#[trigger] s[i])
}

/// A non-negative decimal number: digits, or digits, a point, and digits.
pub open spec fn is_decimal_fraction(s: Seq<char>) -> bool {
    is_digits(s) || exists|point: int|
        0 < point < s.len() - 1 && s[point] == '.' && is_digits(s.subrange(0, point))
            && is_digits(#[trigger] s.subrange(point + 1, s.len() as int))
}

/// The weight of a term or phrase in a search, as the decimal number that is
/// written into the query. The default weight is 1; a larger weight makes a
/// match more relevant, a smaller one less.
#[derive(Clone, Debug)]
pub struct Weight {
    text: String,
}

impl Weight {
    /// The digits of the weight.
    pub closed spec fn text_spec(&self) -> Seq<char> {
        self.text@
    }

    /// The weight is a decimal number.
    pub closed spec fn well_formed(&self) -> bool {
        is_decimal_fraction(self.text@)
    }

    /// The weight that the given text writes, if it is a decimal number
    /// without sign or exponent.
    pub fn new(text: &str) -> (w: Option<Weight>)
        ensures
            w is Some <==> is_decimal_fraction(text@),
            w matches Some(weight) ==> weight.well_formed() && weight.text_spec() == text@,
    {
        let chars = chars_of(text);
        let n = chars.len();
        let mut i: usize = 0;
        while i < n && '0' <= chars[i] && chars[i] <= '9'
            invariant
                n == chars.len(),
                i <= n,
                forall|j: int| 0 <= j < i ==> is_decimal_digit(#[trigger] chars@[j]),
            decreases n - i,
        {
            i += 1;
        }
        if i == 0 {
            proof {
                lemma_fraction_starts_with_digit(chars@);
            }
            return None;
        }
        if i == n {
            assert(is_digits(chars@));
            return Some(Weight { text: String::from_str(text) });
        }
        let point = i;
        if chars[point] != '.' || point + 1 == n {
            proof {
                lemma_fraction_point(chars@, point as int);
            }
            return None;
        }
        i = point + 1;
        while i < n && '0' <= chars[i] && chars[i] <= '9'
            invariant
                n == chars.len(),
                point < i <= n,
                forall|j: int| point < j < i ==> is_decimal_digit(#[trigger] chars@[j]),
            decreases n - i,
        {
            i += 1;
        }
        if i == n {
            let ghost front = chars@.subrange(0, point as int);
            let ghost back = chars@.subrange(point + 1, n as int);
            assert(is_digits(front));
            assert(is_digits(back));
            Some(Weight { text: String::from_str(text) })
        } else {
            proof {
                lemma_fraction_point(chars@, point as int);
                let back = chars@.subrange(point + 1, n as int);
                assert(back[i - point - 1] == chars@[i as int]);
            }
            None
        }
    }

    /// The digits of the weight.
    pub fn as_str(&self) -> (s: &str)
        ensures
            s@ == self.text_spec(),
    {
        self.text.as_str()
    }
}

/// A decimal number starts with a digit.
proof fn lemma_fraction_starts_with_digit(s: Seq<char>)
    requires
        s.len() == 0 || !is_decimal_digit(s[0]),
    ensures
        !is_decimal_fraction(s),
{
    if is_decimal_fraction(s) {
        if !is_digits(s) {
            let point = choose|point: int|
                0 < point < s.len() - 1 && s[point] == '.' && is_digits(s.subrange(0, point))
                    && is_digits(#[trigger] s.subrange(point + 1, s.len() as int));
            assert(s.subrange(0, point)[0] == s[0]);
        }
    }
}

/// Where the leading digits of a text end at `at` before its end, the text
/// is a decimal number only if a point stands there and digits alone follow.
proof fn lemma_fraction_point(s: Seq<char>, at: int)
    requires
        0 < at < s.len(),
        forall|j: int| 0 <= j < at ==> is_decimal_digit(#[trigger] s[j]),
        !is_decimal_digit(s[at]),
    ensures
        is_decimal_fraction(s) ==> s[at] == '.' && at < s.len() - 1 && is_digits(
            s.subrange(at + 1, s.len() as int),
        ),
{
    if is_decimal_fraction(s) {
        assert(!is_digits(s));
        let point = choose|point: int|
            0 < point < s.len() - 1 && s[point] == '.' && is_digits(s.subrange(0, point))
                && is_digits(#[trigger] s.subrange(point + 1, s.len() as int));
        if point < at {
            assert(is_decimal_digit(s[point]));
        } else if point > at {
            assert(s.subrange(0, point)[at] == s[at]);
        }
    }
}

/// Anything that can be written as a query.
pub trait Expression: Sized {
    /// The query text of this expression.
    spec fn text_spec(&self) -> Seq<char>;

    /// Writes the expression in the query language.
    fn to_string(&self) -> (s: String)
        ensures
            s@ == self.text_spec(),
    ;

}

/// The operators that connect two expressions.
pub trait Connect: Expression {
    /// Both this expression and `rhs` have to hold.
    fn and<RHS: Expression>(self, rhs: RHS) -> (q: ConnectQuery<Self, RHS>)
        ensures
            q == (ConnectQuery { lhs: self, rhs, operator: OperatorKind::And }),
    ;

    /// Either this expression or `rhs` has to hold.
    fn or<RHS: Expression>(self, rhs: RHS) -> (q: ConnectQuery<Self, RHS>)
        ensures
            q == (ConnectQuery { lhs: self, rhs, operator: OperatorKind::Or }),
    ;
}

impl<E: Expression> Connect for E {
    fn and<RHS: Expression>(self, rhs: RHS) -> (q: ConnectQuery<E, RHS>) {
        ConnectQuery { lhs: self, rhs, operator: OperatorKind::And }
    }

    fn or<RHS: Expression>(self, rhs: RHS) -> (q: ConnectQuery<E, RHS>) {
        ConnectQuery { lhs: self, rhs, operator: OperatorKind::Or }
    }
}

/// A single word that is searched for.
pub trait Term: Expression {
    spec fn is_boosted_spec(&self) -> bool;

    spec fn is_fuzzy_spec(&self) -> bool;

    /// Whether a weight was already given to this term.
    fn is_boosted(&self) -> (b: bool)
        ensures
            b == self.is_boosted_spec(),
    ;

    /// Whether this term already matches approximately.
    fn is_fuzzy(&self) -> (b: bool)
        ensures
            b == self.is_fuzzy_spec(),
    ;

    /// Lets the term match words within the given Levenshtein distance,
    /// which the server takes from `{0, 1, 2}`. A term can be made fuzzy only
    /// once.
    fn fuzzy(self, max_distance: u32) -> (t: FuzzyTerm<Self>)
        requires
            !self.is_fuzzy_spec(),
        ensures
            t == (FuzzyTerm { term: self, max_distance }),
    {
        FuzzyTerm { term: self, max_distance }
    }

    /// With boosting a particular term can be made more or less relevant in
    /// the search. A term can be boosted only once.
    fn boost(self, weight: Weight) -> (t: BoostTerm<Self>)
        requires
            !self.is_boosted_spec(),
        ensures
            t == (BoostTerm { term: self, weight }),
    {
        BoostTerm { term: self, weight }
    }
}

/// Several words that are searched for together.
pub trait Phrase: Expression {
    spec fn is_boosted_spec(&self) -> bool;

    spec fn is_proximity_spec(&self) -> bool;

    /// Whether a weight was already given to this phrase.
    fn is_boosted(&self) -> (b: bool)
        ensures
            b == self.is_boosted_spec(),
    ;

    /// Whether a maximum distance between the words was already given.
    fn is_proximity(&self) -> (b: bool)
        ensures
            b == self.is_proximity_spec(),
    ;
}

/// A word, escaped for use in a URL.
#[derive(Clone, Debug)]
pub struct BasicTerm {
    pub value: String,
}

/// Words in quotes, escaped for use in a URL.
#[derive(Clone, Debug)]
pub struct BasicPhrase {
    pub value: String,
}

/// Terms with the same operator between them.
#[derive(Clone, Debug)]
pub struct CombinedPhrase<T> {
    pub terms: Vec<T>,
    pub operator: OperatorKind,
}

/// A term that may match approximately.
#[derive(Clone, Debug)]
pub struct FuzzyTerm<T> {
    pub term: T,
    pub max_distance: u32,
}

/// A term with a weight.
#[derive(Clone, Debug)]
pub struct BoostTerm<T> {
    pub term: T,
    pub weight: Weight,
}

/// A phrase with a weight.
#[derive(Clone, Debug)]
pub struct BoostPhrase<P> {
    pub phrase: P,
    pub weight: Weight,
}

/// A phrase whose words may stand apart.
#[derive(Clone, Debug)]
pub struct ProximityPhrase<P> {
    pub phrase: P,
    pub max_distance: u32,
}

/// A clause that is searched for in one field.
#[derive(Clone, Debug)]
pub struct FieldQuery<T> {
    pub field: String,
    pub clause: T,
}

/// Two expressions and the operator between them.
#[derive(Clone, Debug)]
pub struct ConnectQuery<LHS, RHS> {
    pub lhs: LHS,
    pub rhs: RHS,
    pub operator: OperatorKind,
}

/// A term for the given word, which is escaped.
pub fn term(s: &str) -> (t: BasicTerm)
    ensures
        t.value@ == escape_full_spec(s@),
{
    BasicTerm { value: escape_full(s) }
}

/// A phrase for the given words, which are escaped.
pub fn phrase(s: &str) -> (p: BasicPhrase)
    ensures
        p.value@ == escape_full_spec(s@),
{
    BasicPhrase { value: escape_full(s) }
}

fn push_decimal(s: &mut String, n: u32)
    ensures
        final(s)@ == old(s)@ + decimal_digits(n as nat),
{
    let digits = string_of(&decimal_chars(n as u64));
    s.append(digits.as_str());
}

impl Expression for BasicTerm {
    open spec fn text_spec(&self) -> Seq<char> {
        self.value@
    }

    fn to_string(&self) -> (s: String) {
        self.value.clone()
    }
}

impl Term for BasicTerm {
    open spec fn is_boosted_spec(&self) -> bool {
        false
    }

    open spec fn is_fuzzy_spec(&self) -> bool {
        false
    }

    fn is_boosted(&self) -> (b: bool) {
        false
    }

    fn is_fuzzy(&self) -> (b: bool) {
        false
    }
}

impl<T: Term> Expression for FuzzyTerm<T> {
    /// The term, a tilde, and the distance.
    open spec fn text_spec(&self) -> Seq<char> {
        self.term.text_spec() + seq!['~'] + decimal_digits(self.max_distance as nat)
    }

    fn to_string(&self) -> (s: String) {
        let mut s = self.term.to_string();
        s.push('~');
        push_decimal(&mut s, self.max_distance);
        s
    }
}

impl<T: Term> Term for FuzzyTerm<T> {
    open spec fn is_boosted_spec(&self) -> bool {
        self.term.is_boosted_spec()
    }

    open spec fn is_fuzzy_spec(&self) -> bool {
        true
    }

    fn is_boosted(&self) -> (b: bool) {
        self.term.is_boosted()
    }

    fn is_fuzzy(&self) -> (b: bool) {
        true
    }
}

impl<T: Term> Expression for BoostTerm<T> {
    /// The term, a caret, and the weight.
    open spec fn text_spec(&self) -> Seq<char> {
        self.term.text_spec() + seq!['^'] + self.weight.text_spec()
    }

    fn to_string(&self) -> (s: String) {
        let mut s = self.term.to_string();
        s.push('^');
        s.append(self.weight.as_str());
        s
    }
}

impl<T: Term> Term for BoostTerm<T> {
    open spec fn is_boosted_spec(&self) -> bool {
        true
    }

    open spec fn is_fuzzy_spec(&self) -> bool {
        self.term.is_fuzzy_spec()
    }

    fn is_boosted(&self) -> (b: bool) {
        true
    }

    fn is_fuzzy(&self) -> (b: bool) {
        self.term.is_fuzzy()
    }
}

impl<P: Phrase> Expression for BoostPhrase<P> {
    /// The phrase, a caret, and the weight.
    open spec fn text_spec(&self) -> Seq<char> {
        self.phrase.text_spec() + seq!['^'] + self.weight.text_spec()
    }

    fn to_string(&self) -> (s: String) {
        let mut s = self.phrase.to_string();
        s.push('^');
        s.append(self.weight.as_str());
        s
    }
}

impl<P: Phrase> Phrase for BoostPhrase<P> {
    open spec fn is_boosted_spec(&self) -> bool {
        true
    }

    open spec fn is_proximity_spec(&self) -> bool {
        self.phrase.is_proximity_spec()
    }

    fn is_boosted(&self) -> (b: bool) {
        true
    }

    fn is_proximity(&self) -> (b: bool) {
        self.phrase.is_proximity()
    }
}

impl Expression for BasicPhrase {
    /// The words between double quotes.
    open spec fn text_spec(&self) -> Seq<char> {
        seq!['"'] + self.value@ + seq!['"']
    }

    fn to_string(&self) -> (s: String) {
        let mut s = String::from_str("\"");
        proof {
            reveal_strlit("\"");
            assert("\""@ == seq!['"']);
        }
        s.append(self.value.as_str());
        s.push('"');
        s
    }
}

impl Phrase for BasicPhrase {
    open spec fn is_boosted_spec(&self) -> bool {
        false
    }

    open spec fn is_proximity_spec(&self) -> bool {
        false
    }

    fn is_boosted(&self) -> (b: bool) {
        false
    }

    fn is_proximity(&self) -> (b: bool) {
        false
    }
}

impl<P: Phrase> Expression for ProximityPhrase<P> {
    /// The phrase, a tilde, and the distance.
    open spec fn text_spec(&self) -> Seq<char> {
        self.phrase.text_spec() + seq!['~'] + decimal_digits(self.max_distance as nat)
    }

    fn to_string(&self) -> (s: String) {
        let mut s = self.phrase.to_string();
        s.push('~');
        push_decimal(&mut s, self.max_distance);
        s
    }
}

impl<P: Phrase> Phrase for ProximityPhrase<P> {
    open spec fn is_boosted_spec(&self) -> bool {
        self.phrase.is_boosted_spec()
    }

    open spec fn is_proximity_spec(&self) -> bool {
        true
    }

    fn is_boosted(&self) -> (b: bool) {
        self.phrase.is_boosted()
    }

    fn is_proximity(&self) -> (b: bool) {
        true
    }
}

/// The first `count` terms, each followed by a space and the operator.
pub open spec fn leading_terms<T: Term>(terms: Seq<T>, operator: OperatorKind, count: nat) -> Seq<
    char,
>
    decreases count,
{
    if count == 0 {
        Seq::empty()
    } else {
        leading_terms(terms, operator, (count - 1) as nat) + terms[count - 1].text_spec()
            + seq![' '] + operator.word_spec()
    }
}

impl<T: Term> Expression for CombinedPhrase<T> {
    /// Every term but the last is followed by a space and the operator; the
    /// last term follows directly. Without terms the text is empty.
    open spec fn text_spec(&self) -> Seq<char> {
        if self.terms@.len() == 0 {
            Seq::empty()
        } else {
            leading_terms(self.terms@, self.operator, (self.terms@.len() - 1) as nat)
                + self.terms@.last().text_spec()
        }
    }

    fn to_string(&self) -> (s: String) {
        let n = self.terms.len();
        let mut s = String::new();
        if n == 0 {
            return s;
        }
        let mut i: usize = 0;
        while i < n - 1
            invariant
                n == self.terms.len(),
                n > 0,
                i <= n - 1,
                s@ == leading_terms(self.terms@, self.operator, i as nat),
            decreases n - 1 - i,
        {
            let t = self.terms[i].to_string();
            s.append(t.as_str());
            s.push(' ');
            s.append(self.operator.as_str());
            i += 1;
        }
        let t = self.terms[n - 1].to_string();
        s.append(t.as_str());
        s
    }
}

impl<T: Term> Phrase for CombinedPhrase<T> {
    open spec fn is_boosted_spec(&self) -> bool {
        false
    }

    open spec fn is_proximity_spec(&self) -> bool {
        false
    }

    fn is_boosted(&self) -> (b: bool) {
        false
    }

    fn is_proximity(&self) -> (b: bool) {
        false
    }
}

impl<LHS: Expression, RHS: Expression> Expression for ConnectQuery<LHS, RHS> {
    /// Both sides in parentheses, the operator between them.
    open spec fn text_spec(&self) -> Seq<char> {
        seq!['('] + self.lhs.text_spec() + seq![')', ' '] + self.operator.word_spec() + seq![
            ' ',
            '(',
        ] + self.rhs.text_spec() + seq![')']
    }

    fn to_string(&self) -> (s: String) {
        let mut s = String::new();
        s.push('(');
        s.append(self.lhs.to_string().as_str());
        s.push(')');
        s.push(' ');
        s.append(self.operator.as_str());
        s.push(' ');
        s.push('(');
        s.append(self.rhs.to_string().as_str());
        s.push(')');
        assert(s@ == self.text_spec());
        s
    }
}

impl<T: Expression> Expression for FieldQuery<T> {
    /// The field, a colon, and the clause in parentheses.
    open spec fn text_spec(&self) -> Seq<char> {
        self.field@ + seq![':', '('] + self.clause.text_spec() + seq![')']
    }

    fn to_string(&self) -> (s: String) {
        let mut s = self.field.clone();
        s.push(':');
        s.push('(');
        s.append(self.clause.to_string().as_str());
        s.push(')');
        assert(s@ == self.text_spec());
        s
    }
}

} // verus!
