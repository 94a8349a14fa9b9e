//! Alternative names of an entity.

use vstd::prelude::*;
use crate::entities::helper::{optional_keyword_spec, read_optional_keyword, Keyword};
use crate::entities::lang::{invalid_code, iso_639_3_of_1, Language};
use crate::entities::on_request::as_ref_spec;
use crate::error::{Error, ErrorModel};
use crate::xml::{
    child_spec, decode_failure, failure, required, required_spec, Document, DocumentModel, FromXml,
    FromXmlOptional,
};

verus! {

/// What an alias is used for.
#[derive(Clone, Copy, Debug, PartialEq, Eq, Structural)]
pub enum AliasType {
    SearchHint,
    ArtistName,
    LegalName,
}

impl DeepView for AliasType {
    type V = AliasType;

    open spec fn deep_view(&self) -> AliasType {
        *self
    }
}

impl AliasType {
    /// The word the database writes for this value.
    pub open spec fn word_spec(self) -> Seq<char> {
        match self {
            AliasType::SearchHint => "Search hint"@,
            AliasType::ArtistName => "Artist name"@,
            AliasType::LegalName => "Legal name"@,
        }
    }

    /// The word the database writes for this value.
    pub fn as_str(&self) -> (s: &'static str)
        ensures
            s@ == self.word_spec(),
    {
        match self {
            AliasType::SearchHint => "Search hint",
            AliasType::ArtistName => "Artist name",
            AliasType::LegalName => "Legal name",
        }
    }

    /// The word the database writes for this value.
    pub fn to_string(&self) -> (s: String)
        ensures
            s@ == self.word_spec(),
    {
        String::from_str(self.as_str())
    }
}

impl Keyword for AliasType {
    open spec fn kind_name() -> Seq<char> {
        "AliasType"@
    }

    open spec fn parse_spec(word: Seq<char>) -> Option<AliasType> {
        if word == "Search hint"@ {
            Some(AliasType::SearchHint)
        } else if word == "Artist name"@ {
            Some(AliasType::ArtistName)
        } else if word == "Legal name"@ {
            Some(AliasType::LegalName)
        } else {
            None
        }
    }

    fn name() -> (n: &'static str) {
        "AliasType"
    }

    fn from_word(word: &str) -> (r: Option<AliasType>) {
        if word.eq("Search hint") {
            Some(AliasType::SearchHint)
        } else if word.eq("Artist name") {
            Some(AliasType::ArtistName)
        } else if word.eq("Legal name") {
            Some(AliasType::LegalName)
        } else {
            None
        }
    }
}

impl FromXmlOptional for AliasType {
    open spec fn from_xml_optional_spec(doc: DocumentModel, nodes: Seq<char>) -> Result<
        Option<AliasType>,
        ErrorModel,
    > {
        optional_keyword_spec::<AliasType>(doc, nodes)
    }

    fn from_xml_optional(doc: &Document, nodes: &str) -> (r: Result<
        Option<AliasType>,
        Error,
    >) {
        read_optional_keyword::<AliasType>(doc, nodes)
    }
}

impl FromXml for AliasType {
    open spec fn from_xml_spec(doc: DocumentModel, nodes: Seq<char>) -> Result<
        AliasType,
        ErrorModel,
    > {
        required_spec::<AliasType>(doc, nodes)
    }

    fn from_xml(doc: &Document, nodes: &str) -> (r: Result<AliasType, Error>) {
        required::<AliasType>(doc, nodes)
    }
}

/// An alternative name of an entity.
#[derive(Clone, Debug, PartialEq, Eq)]
pub struct Alias {
    pub alias_type: Option<AliasType>,
    pub sort_name: Option<String>,
    pub name: String,
    pub locale: Option<Language>,
    pub primary: bool,
}

/// Mathematical content of an [`Alias`].
pub struct AliasModel {
    pub alias_type: Option<AliasType>,
    pub sort_name: Option<Seq<char>>,
    pub name: Seq<char>,
    pub locale: Option<Seq<char>>,
    pub primary: bool,
}

impl DeepView for Alias {
    type V = AliasModel;

    open spec fn deep_view(&self) -> AliasModel {
        AliasModel {
            alias_type: self.alias_type.deep_view(),
            sort_name: self.sort_name.deep_view(),
            name: self.name.deep_view(),
            locale: self.locale.deep_view(),
            primary: self.primary.deep_view(),
        }
    }
}

/// The language a locale attribute names by its two-letter code.
pub open spec fn locale_spec(locale: Option<Seq<char>>) -> Result<Option<Seq<char>>, ErrorModel> {
    match locale {
        None => Ok(None),
        Some(code) => match iso_639_3_of_1(code) {
            Some(found) => Ok(Some(found)),
            None => Err(decode_failure(invalid_code("639-1"@, code).message)),
        },
    }
}

impl FromXml for Alias {
    /// The flag and the locale are read first, then type, sort name and
    /// name. An alias is primary when its flag is the word `primary`.
    open spec fn from_xml_spec(doc: DocumentModel, nodes: Seq<char>) -> Result<
        AliasModel,
        ErrorModel,
    > {
        let primary = doc.optional_text(child_spec(nodes, ".//@primary"@));
        let lang = doc.optional_text(child_spec(nodes, ".//@locale"@));
        let locale = if lang is Ok {
            locale_spec(lang->Ok_0)
        } else {
            Err(lang->Err_0)
        };
        let alias_type = AliasType::from_xml_optional_spec(doc, child_spec(nodes, ".//@type"@));
        let sort_name = doc.optional_text(child_spec(nodes, ".//@sort-name"@));
        let name = doc.text(child_spec(nodes, ".//text()"@));
        if primary is Err {
            Err(primary->Err_0)
        } else if locale is Err {
            Err(locale->Err_0)
        } else if alias_type is Err {
            Err(alias_type->Err_0)
        } else if sort_name is Err {
            Err(sort_name->Err_0)
        } else if name is Err {
            Err(name->Err_0)
        } else {
            Ok(
                AliasModel {
                    alias_type: alias_type->Ok_0,
                    sort_name: sort_name->Ok_0,
                    name: name->Ok_0,
                    locale: locale->Ok_0,
                    primary: primary->Ok_0 == Some("primary"@),
                },
            )
        }
    }

    fn from_xml(doc: &Document, nodes: &str) -> (r: Result<Alias, Error>) {
        let primary: Option<String> = doc.read_optional(nodes, ".//@primary")?;
        let lang: Option<String> = doc.read_optional(nodes, ".//@locale")?;
        let locale: Option<Language> = match lang {
            Some(code) => match Language::from_639_1(code.as_str()) {
                Ok(language) => Some(language),
                Err(e) => {
                    return Err(failure(e.message()));
                },
            },
            None => None,
        };
        let alias_type: Option<AliasType> = doc.read_optional(nodes, ".//@type")?;
        let sort_name: Option<String> = doc.read_optional(nodes, ".//@sort-name")?;
        let name: String = doc.read(nodes, ".//text()")?;
        let is_primary = match &primary {
            Some(flag) => flag.as_str().eq("primary"),
            None => false,
        };
        Ok(Alias { alias_type, sort_name, name, locale, primary: is_primary })
    }
}

impl Alias {
    /// What the alias is used for.
    pub fn alias_type(&self) -> (r: Option<AliasType>)
        ensures
            r == self.alias_type,
    {
        self.alias_type
    }

    /// The alternative name.
    pub fn name(&self) -> (r: &String)
        ensures
            *r == self.name,
    {
        &self.name
    }

    /// The name to sort the alias by.
    pub fn sort_name(&self) -> (r: Option<&String>)
        ensures
            r == as_ref_spec(&self.sort_name),
    {
        self.sort_name.as_ref()
    }

    /// The language in which the alias is used.
    pub fn locale(&self) -> (r: Option<&Language>)
        ensures
            r == as_ref_spec(&self.locale),
    {
        self.locale.as_ref()
    }

    /// Whether this is the primary alias for its language.
    pub fn primary(&self) -> (r: bool)
        ensures
            r == self.primary,
    {
        self.primary
    }
}

} // verus!
