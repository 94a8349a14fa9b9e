//! Artists.

use vstd::prelude::*;
use crate::client::{Includes, Request};
use crate::entities::alias::{Alias, AliasModel};
use crate::entities::date::PartialDate;
use crate::entities::helper::{optional_keyword_spec, read_optional_keyword, Keyword};
use crate::entities::mbid::Mbid;
use crate::entities::on_request::{as_ref_spec, OnRequest};
use crate::entities::refs::{AreaRef, AreaRefModel};
use crate::entities::Resource;
use crate::error::{Error, ErrorModel};
use crate::xml::{
    child_spec, list_spec, required, required_spec, Document, DocumentModel, FromXml,
    FromXmlOptional,
};

verus! {

/// Specification of the gender of an artist.
#[derive(Clone, Copy, Debug, PartialEq, Eq, Structural)]
pub enum Gender {
    Female,
    Male,
    Other,
}

impl DeepView for Gender {
    type V = Gender;

    open spec fn deep_view(&self) -> Gender {
        *self
    }
}

impl Gender {
    /// The word the database writes for this value.
    pub open spec fn word_spec(self) -> Seq<char> {
        match self {
            Gender::Female => "Female"@,
            Gender::Male => "Male"@,
            Gender::Other => "Other"@,
        }
    }

    /// The word the database writes for this value.
    pub fn as_str(&self) -> (s: &'static str)
        ensures
            s@ == self.word_spec(),
    {
        match self {
            Gender::Female => "Female",
            Gender::Male => "Male",
            Gender::Other => "Other",
        }
    }

    /// The word the database writes for this value.
    pub fn to_string(&self) -> (s: String)
        ensures
            s@ == self.word_spec(),
    {
        String::from_str(self.as_str())
    }
}

impl Keyword for Gender {
    open spec fn kind_name() -> Seq<char> {
        "Gender"@
    }

    open spec fn parse_spec(word: Seq<char>) -> Option<Gender> {
        if word == "Female"@ {
            Some(Gender::Female)
        } else if word == "Male"@ {
            Some(Gender::Male)
        } else if word == "Other"@ {
            Some(Gender::Other)
        } else {
            None
        }
    }

    fn name() -> (n: &'static str) {
        "Gender"
    }

    fn from_word(word: &str) -> (r: Option<Gender>) {
        if word.eq("Female") {
            Some(Gender::Female)
        } else if word.eq("Male") {
            Some(Gender::Male)
        } else if word.eq("Other") {
            Some(Gender::Other)
        } else {
            None
        }
    }
}

impl FromXmlOptional for Gender {
    open spec fn from_xml_optional_spec(doc: DocumentModel, nodes: Seq<char>) -> Result<
        Option<Gender>,
        ErrorModel,
    > {
        optional_keyword_spec::<Gender>(doc, nodes)
    }

    fn from_xml_optional(doc: &Document, nodes: &str) -> (r: Result<
        Option<Gender>,
        Error,
    >) {
        read_optional_keyword::<Gender>(doc, nodes)
    }
}

impl FromXml for Gender {
    open spec fn from_xml_spec(doc: DocumentModel, nodes: Seq<char>) -> Result<
        Gender,
        ErrorModel,
    > {
        required_spec::<Gender>(doc, nodes)
    }

    fn from_xml(doc: &Document, nodes: &str) -> (r: Result<Gender, Error>) {
        required::<Gender>(doc, nodes)
    }
}

/// Specifies what an `Artist` instance actually is.
#[derive(Clone, Copy, Debug, PartialEq, Eq, Structural)]
pub enum ArtistType {
    Person,
    Group,
    Orchestra,
    Choir,
    Character,
    Other,
}

impl DeepView for ArtistType {
    type V = ArtistType;

    open spec fn deep_view(&self) -> ArtistType {
        *self
    }
}

impl ArtistType {
    /// The word the database writes for this value.
    pub open spec fn word_spec(self) -> Seq<char> {
        match self {
            ArtistType::Person => "Person"@,
            ArtistType::Group => "Group"@,
            ArtistType::Orchestra => "Orchestra"@,
            ArtistType::Choir => "Choir"@,
            ArtistType::Character => "Character"@,
            ArtistType::Other => "Other"@,
        }
    }

    /// The word the database writes for this value.
    pub fn as_str(&self) -> (s: &'static str)
        ensures
            s@ == self.word_spec(),
    {
        match self {
            ArtistType::Person => "Person",
            ArtistType::Group => "Group",
            ArtistType::Orchestra => "Orchestra",
            ArtistType::Choir => "Choir",
            ArtistType::Character => "Character",
            ArtistType::Other => "Other",
        }
    }

    /// The word the database writes for this value.
    pub fn to_string(&self) -> (s: String)
        ensures
            s@ == self.word_spec(),
    {
        String::from_str(self.as_str())
    }
}

impl Keyword for ArtistType {
    open spec fn kind_name() -> Seq<char> {
        "ArtistType"@
    }

    open spec fn parse_spec(word: Seq<char>) -> Option<ArtistType> {
        if word == "Person"@ {
            Some(ArtistType::Person)
        } else if word == "Group"@ {
            Some(ArtistType::Group)
        } else if word == "Orchestra"@ {
            Some(ArtistType::Orchestra)
        } else if word == "Choir"@ {
            Some(ArtistType::Choir)
        } else if word == "Character"@ {
            Some(ArtistType::Character)
        } else if word == "Other"@ {
            Some(ArtistType::Other)
        } else {
            None
        }
    }

    fn name() -> (n: &'static str) {
        "ArtistType"
    }

    fn from_word(word: &str) -> (r: Option<ArtistType>) {
        if word.eq("Person") {
            Some(ArtistType::Person)
        } else if word.eq("Group") {
            Some(ArtistType::Group)
        } else if word.eq("Orchestra") {
            Some(ArtistType::Orchestra)
        } else if word.eq("Choir") {
            Some(ArtistType::Choir)
        } else if word.eq("Character") {
            Some(ArtistType::Character)
        } else if word.eq("Other") {
            Some(ArtistType::Other)
        } else {
            None
        }
    }
}

impl FromXmlOptional for ArtistType {
    open spec fn from_xml_optional_spec(doc: DocumentModel, nodes: Seq<char>) -> Result<
        Option<ArtistType>,
        ErrorModel,
    > {
        optional_keyword_spec::<ArtistType>(doc, nodes)
    }

    fn from_xml_optional(doc: &Document, nodes: &str) -> (r: Result<
        Option<ArtistType>,
        Error,
    >) {
        read_optional_keyword::<ArtistType>(doc, nodes)
    }
}

impl FromXml for ArtistType {
    open spec fn from_xml_spec(doc: DocumentModel, nodes: Seq<char>) -> Result<
        ArtistType,
        ErrorModel,
    > {
        required_spec::<ArtistType>(doc, nodes)
    }

    fn from_xml(doc: &Document, nodes: &str) -> (r: Result<ArtistType, Error>) {
        required::<ArtistType>(doc, nodes)
    }
}

/// The optional parts of an artist.
#[derive(Clone, Copy, Debug, PartialEq, Eq, Structural)]
pub struct ArtistOptions {
    pub annotation: bool,
    pub aliases: bool,
}

impl ArtistOptions {
    /// Request everything from the server.
    pub fn everything() -> (options: Self)
        ensures
            options == (ArtistOptions { annotation: true, aliases: true }),
    {
        ArtistOptions { annotation: true, aliases: true }
    }

    /// Only request the minimal amount of fields.
    pub fn minimal() -> (options: Self)
        ensures
            options == (ArtistOptions { annotation: false, aliases: false }),
    {
        ArtistOptions { annotation: false, aliases: false }
    }
}

/// The fields of an artist as the server sends them.
#[derive(Clone, Debug, PartialEq, Eq)]
pub struct ArtistResponse {
    /// MBID of the entity in the MusicBrainz database.
    pub mbid: Mbid,
    pub name: String,
    pub sort_name: String,
    pub aliases: Vec<Alias>,
    pub annotation: Option<String>,
    pub disambiguation: Option<String>,
    pub artist_type: Option<ArtistType>,
    pub gender: Option<Gender>,
    pub area: Option<AreaRef>,
    pub begin_date: Option<PartialDate>,
    pub end_date: Option<PartialDate>,
    pub ipi_code: Option<String>,
    pub isni_code: Option<String>,
}

/// Mathematical content of an [`ArtistResponse`].
pub struct ArtistResponseModel {
    pub mbid: Mbid,
    pub name: Seq<char>,
    pub sort_name: Seq<char>,
    pub aliases: Seq<AliasModel>,
    pub annotation: Option<Seq<char>>,
    pub disambiguation: Option<Seq<char>>,
    pub artist_type: Option<ArtistType>,
    pub gender: Option<Gender>,
    pub area: Option<AreaRefModel>,
    pub begin_date: Option<PartialDate>,
    pub end_date: Option<PartialDate>,
    pub ipi_code: Option<Seq<char>>,
    pub isni_code: Option<Seq<char>>,
}

impl DeepView for ArtistResponse {
    type V = ArtistResponseModel;

    open spec fn deep_view(&self) -> ArtistResponseModel {
        ArtistResponseModel {
            mbid: self.mbid.deep_view(),
            name: self.name.deep_view(),
            sort_name: self.sort_name.deep_view(),
            aliases: self.aliases.deep_view(),
            annotation: self.annotation.deep_view(),
            disambiguation: self.disambiguation.deep_view(),
            artist_type: self.artist_type.deep_view(),
            gender: self.gender.deep_view(),
            area: self.area.deep_view(),
            begin_date: self.begin_date.deep_view(),
            end_date: self.end_date.deep_view(),
            ipi_code: self.ipi_code.deep_view(),
            isni_code: self.isni_code.deep_view(),
        }
    }
}

impl FromXml for ArtistResponse {
    /// The fields are read in the order given here; the first that fails
    /// decides the failure.
    open spec fn from_xml_spec(doc: DocumentModel, nodes: Seq<char>) -> Result<
        ArtistResponseModel,
        ErrorModel,
    > {
        let aliases = list_spec::<Alias>(
            doc,
            child_spec(nodes, ".//mb:artist/mb:alias-list/mb:alias"@),
        );
        let annotation = String::from_xml_optional_spec(
            doc,
            child_spec(nodes, ".//mb:artist/mb:annotation/text()"@),
        );
        let area = AreaRef::from_xml_optional_spec(
            doc,
            child_spec(nodes, ".//mb:artist/mb:area"@),
        );
        let artist_type = ArtistType::from_xml_optional_spec(
            doc,
            child_spec(nodes, ".//mb:artist/@type"@),
        );
        let begin_date = PartialDate::from_xml_optional_spec(
            doc,
            child_spec(nodes, ".//mb:artist/mb:life-span/mb:begin/text()"@),
        );
        let disambiguation = String::from_xml_optional_spec(
            doc,
            child_spec(nodes, ".//mb:artist/mb:disambiguation/text()"@),
        );
        let end_date = PartialDate::from_xml_optional_spec(
            doc,
            child_spec(nodes, ".//mb:artist/mb:life-span/mb:end/text()"@),
        );
        let gender = Gender::from_xml_optional_spec(
            doc,
            child_spec(nodes, ".//mb:artist/mb:gender/text()"@),
        );
        let ipi_code = String::from_xml_optional_spec(
            doc,
            child_spec(nodes, ".//mb:artist/mb:ipi/text()"@),
        );
        let isni_code = String::from_xml_optional_spec(
            doc,
            child_spec(nodes, ".//mb:artist/mb:isni-list/mb:isni/text()"@),
        );
        let mbid = Mbid::from_xml_spec(doc, child_spec(nodes, ".//mb:artist/@id"@));
        let name = String::from_xml_spec(doc, child_spec(nodes, ".//mb:artist/mb:name/text()"@));
        let sort_name = String::from_xml_spec(
            doc,
            child_spec(nodes, ".//mb:artist/mb:sort-name/text()"@),
        );
        if aliases is Err {
            Err(aliases->Err_0)
        } else if annotation is Err {
            Err(annotation->Err_0)
        } else if area is Err {
            Err(area->Err_0)
        } else if artist_type is Err {
            Err(artist_type->Err_0)
        } else if begin_date is Err {
            Err(begin_date->Err_0)
        } else if disambiguation is Err {
            Err(disambiguation->Err_0)
        } else if end_date is Err {
            Err(end_date->Err_0)
        } else if gender is Err {
            Err(gender->Err_0)
        } else if ipi_code is Err {
            Err(ipi_code->Err_0)
        } else if isni_code is Err {
            Err(isni_code->Err_0)
        } else if mbid is Err {
            Err(mbid->Err_0)
        } else if name is Err {
            Err(name->Err_0)
        } else if sort_name is Err {
            Err(sort_name->Err_0)
        } else {
            Ok(
                ArtistResponseModel {
                    aliases: aliases->Ok_0,
                    annotation: annotation->Ok_0,
                    area: area->Ok_0,
                    artist_type: artist_type->Ok_0,
                    begin_date: begin_date->Ok_0,
                    disambiguation: disambiguation->Ok_0,
                    end_date: end_date->Ok_0,
                    gender: gender->Ok_0,
                    ipi_code: ipi_code->Ok_0,
                    isni_code: isni_code->Ok_0,
                    mbid: mbid->Ok_0,
                    name: name->Ok_0,
                    sort_name: sort_name->Ok_0,
                },
            )
        }
    }

    fn from_xml(doc: &Document, nodes: &str) -> (r: Result<ArtistResponse, Error>) {
        let aliases: Vec<Alias> = doc.read_list(nodes, ".//mb:artist/mb:alias-list/mb:alias")?;
        let annotation: Option<String> = doc.read_optional(
            nodes,
            ".//mb:artist/mb:annotation/text()",
        )?;
        let area: Option<AreaRef> = doc.read_optional(nodes, ".//mb:artist/mb:area")?;
        let artist_type: Option<ArtistType> = doc.read_optional(nodes, ".//mb:artist/@type")?;
        let begin_date: Option<PartialDate> = doc.read_optional(
            nodes,
            ".//mb:artist/mb:life-span/mb:begin/text()",
        )?;
        let disambiguation: Option<String> = doc.read_optional(
            nodes,
            ".//mb:artist/mb:disambiguation/text()",
        )?;
        let end_date: Option<PartialDate> = doc.read_optional(
            nodes,
            ".//mb:artist/mb:life-span/mb:end/text()",
        )?;
        let gender: Option<Gender> = doc.read_optional(nodes, ".//mb:artist/mb:gender/text()")?;
        let ipi_code: Option<String> = doc.read_optional(nodes, ".//mb:artist/mb:ipi/text()")?;
        let isni_code: Option<String> = doc.read_optional(
            nodes,
            ".//mb:artist/mb:isni-list/mb:isni/text()",
        )?;
        let mbid: Mbid = doc.read(nodes, ".//mb:artist/@id")?;
        let name: String = doc.read(nodes, ".//mb:artist/mb:name/text()")?;
        let sort_name: String = doc.read(nodes, ".//mb:artist/mb:sort-name/text()")?;
        Ok(
            ArtistResponse {
                aliases,
                annotation,
                area,
                artist_type,
                begin_date,
                disambiguation,
                end_date,
                gender,
                ipi_code,
                isni_code,
                mbid,
                name,
                sort_name,
            },
        )
    }
}

/// A musician, a group or another music professional.
///
/// There are also a couple special purpose artists.
#[derive(Clone, Debug)]
pub struct Artist {
    response: ArtistResponse,
    options: ArtistOptions,
}

impl Artist {
    /// MBID of the artist in the MusicBrainz database.
    pub fn mbid(&self) -> (r: &Mbid)
        ensures
            *r == self.response_spec().mbid,
    {
        &self.response.mbid
    }

    /// The official name of the artist.
    pub fn name(&self) -> (r: &String)
        ensures
            *r == self.response_spec().name,
    {
        &self.response.name
    }

    /// Name to properly sort the artist by.
    ///
    /// Even for artists whose `name` is written in a different script this one
    /// will be in latin script.
    pub fn sort_name(&self) -> (r: &String)
        ensures
            *r == self.response_spec().sort_name,
    {
        &self.response.sort_name
    }

    /// Aliases of the `Artist`'s name. These include alternative official
    /// spellings, common misspellings, versions in different scripts and
    /// other variations of the `Artist` name.
    pub fn aliases(&self) -> (r: OnRequest<&Vec<Alias>>)
        ensures
            r == OnRequest::from_value_spec(
                &self.response_spec().aliases,
                self.options_spec().aliases,
            ),
            r is NotRequested <==> !self.options_spec().aliases,
    {
        OnRequest::from_value(&self.response.aliases, self.options.aliases)
    }

    /// Any additional free form annotation for this `Artist`.
    ///
    /// This can include things like biographies, descriptions of their musical
    /// style, etc.
    pub fn annotation(&self) -> (r: OnRequest<&String>)
        ensures
            r == OnRequest::from_option_spec(
                as_ref_spec(&self.response_spec().annotation),
                self.options_spec().annotation,
            ),
            r is NotRequested <==> !self.options_spec().annotation,
    {
        OnRequest::from_option(self.response.annotation.as_ref(), self.options.annotation)
    }

    /// Additional disambiguation if there are multiple `Artist`s with the same
    /// name.
    pub fn disambiguation(&self) -> (r: Option<&String>)
        ensures
            r == as_ref_spec(&self.response_spec().disambiguation),
    {
        self.response.disambiguation.as_ref()
    }

    /// Whether this `Artist` is a person, group, or something else.
    pub fn artist_type(&self) -> (r: Option<ArtistType>)
        ensures
            r == self.response_spec().artist_type,
    {
        self.response.artist_type
    }

    /// If the `Artist` is a single person this indicates their gender.
    pub fn gender(&self) -> (r: Option<Gender>)
        ensures
            r == self.response_spec().gender,
    {
        self.response.gender
    }

    /// The area an `Artist` is primarily identified with. Often, but not
    /// always, birth/formation country of the artist/group.
    pub fn area(&self) -> (r: Option<&AreaRef>)
        ensures
            r == as_ref_spec(&self.response_spec().area),
    {
        self.response.area.as_ref()
    }

    /// For a single person: date of birth.
    ///
    /// For a group of people: formation date.
    pub fn begin_date(&self) -> (r: Option<&PartialDate>)
        ensures
            r == as_ref_spec(&self.response_spec().begin_date),
    {
        self.response.begin_date.as_ref()
    }

    /// For a deceased person: date of death.
    ///
    /// For a group of people: dissolution date.
    pub fn end_date(&self) -> (r: Option<&PartialDate>)
        ensures
            r == as_ref_spec(&self.response_spec().end_date),
    {
        self.response.end_date.as_ref()
    }

    /// [IPI Code](https://wiki.musicbrainz.org/IPI) of the `Artist`.
    pub fn ipi_code(&self) -> (r: Option<&String>)
        ensures
            r == as_ref_spec(&self.response_spec().ipi_code),
    {
        self.response.ipi_code.as_ref()
    }

    /// [ISNI Code](https://wiki.musicbrainz.org/ISNI) of the `Artist`.
    pub fn isni_code(&self) -> (r: Option<&String>)
        ensures
            r == as_ref_spec(&self.response_spec().isni_code),
    {
        self.response.isni_code.as_ref()
    }
}

impl Resource for Artist {
    type Options = ArtistOptions;

    type Response = ArtistResponse;

    open spec fn name_spec() -> Seq<char> {
        "artist"@
    }

    open spec fn toggles_spec(options: &ArtistOptions) -> Seq<(Seq<char>, bool)> {
        seq![
            ("aliases"@, options.aliases),
            ("annotation"@, options.annotation),
        ]
    }

    closed spec fn response_spec(&self) -> ArtistResponse {
        self.response
    }

    closed spec fn options_spec(&self) -> ArtistOptions {
        self.options
    }

    fn name() -> (n: &'static str) {
        "artist"
    }

    fn request(options: &ArtistOptions) -> (r: Request) {
        let mut parts = Includes::new();
        parts.offer("aliases", options.aliases);
        parts.offer("annotation", options.annotation);
        assert(parts.toggles() == Self::toggles_spec(options));
        Request { name: String::from_str("artist"), inc: parts.finish() }
    }

    fn from_response(response: ArtistResponse, options: ArtistOptions) -> (record: Artist) {
        Artist { response, options }
    }
}

} // verus!
