//! Release groups.

use vstd::prelude::*;
use crate::client::{Includes, Request};
use crate::entities::helper::{optional_keyword_spec, read_optional_keyword, Keyword};
use crate::entities::mbid::Mbid;
use crate::entities::on_request::{as_ref_spec, OnRequest};
use crate::entities::refs::{ArtistRef, ArtistRefModel, ReleaseRef, ReleaseRefModel};
use crate::entities::Resource;
use crate::error::{Error, ErrorModel};
use crate::xml::{
    child_spec, list_spec, required, required_spec, Document, DocumentModel, FromXml,
    FromXmlOptional,
};

verus! {

/// The primary type of a release group.
#[derive(Clone, Copy, Debug, PartialEq, Eq, Structural)]
pub enum ReleaseGroupPrimaryType {
    Album,
    Single,
    EP,
    Broadcast,
    Other,
}

impl DeepView for ReleaseGroupPrimaryType {
    type V = ReleaseGroupPrimaryType;

    open spec fn deep_view(&self) -> ReleaseGroupPrimaryType {
        *self
    }
}

impl ReleaseGroupPrimaryType {
    /// The word the database writes for this value.
    pub open spec fn word_spec(self) -> Seq<char> {
        match self {
            ReleaseGroupPrimaryType::Album => "Album"@,
            ReleaseGroupPrimaryType::Single => "Single"@,
            ReleaseGroupPrimaryType::EP => "EP"@,
            ReleaseGroupPrimaryType::Broadcast => "Broadcast"@,
            ReleaseGroupPrimaryType::Other => "Other"@,
        }
    }

    /// The word the database writes for this value.
    pub fn as_str(&self) -> (s: &'static str)
        ensures
            s@ == self.word_spec(),
    {
        match self {
            ReleaseGroupPrimaryType::Album => "Album",
            ReleaseGroupPrimaryType::Single => "Single",
            ReleaseGroupPrimaryType::EP => "EP",
            ReleaseGroupPrimaryType::Broadcast => "Broadcast",
            ReleaseGroupPrimaryType::Other => "Other",
        }
    }

    /// The word the database writes for this value.
    pub fn to_string(&self) -> (s: String)
        ensures
            s@ == self.word_spec(),
    {
        String::from_str(self.as_str())
    }
}

impl Keyword for ReleaseGroupPrimaryType {
    open spec fn kind_name() -> Seq<char> {
        "ReleaseGroupPrimaryType"@
    }

    open spec fn parse_spec(word: Seq<char>) -> Option<ReleaseGroupPrimaryType> {
        if word == "Album"@ {
            Some(ReleaseGroupPrimaryType::Album)
        } else if word == "Single"@ {
            Some(ReleaseGroupPrimaryType::Single)
        } else if word == "EP"@ {
            Some(ReleaseGroupPrimaryType::EP)
        } else if word == "Broadcast"@ {
            Some(ReleaseGroupPrimaryType::Broadcast)
        } else if word == "Other"@ {
            Some(ReleaseGroupPrimaryType::Other)
        } else {
            None
        }
    }

    fn name() -> (n: &'static str) {
        "ReleaseGroupPrimaryType"
    }

    fn from_word(word: &str) -> (r: Option<ReleaseGroupPrimaryType>) {
        if word.eq("Album") {
            Some(ReleaseGroupPrimaryType::Album)
        } else if word.eq("Single") {
            Some(ReleaseGroupPrimaryType::Single)
        } else if word.eq("EP") {
            Some(ReleaseGroupPrimaryType::EP)
        } else if word.eq("Broadcast") {
            Some(ReleaseGroupPrimaryType::Broadcast)
        } else if word.eq("Other") {
            Some(ReleaseGroupPrimaryType::Other)
        } else {
            None
        }
    }
}

impl FromXmlOptional for ReleaseGroupPrimaryType {
    open spec fn from_xml_optional_spec(doc: DocumentModel, nodes: Seq<char>) -> Result<
        Option<ReleaseGroupPrimaryType>,
        ErrorModel,
    > {
        optional_keyword_spec::<ReleaseGroupPrimaryType>(doc, nodes)
    }

    fn from_xml_optional(doc: &Document, nodes: &str) -> (r: Result<
        Option<ReleaseGroupPrimaryType>,
        Error,
    >) {
        read_optional_keyword::<ReleaseGroupPrimaryType>(doc, nodes)
    }
}

impl FromXml for ReleaseGroupPrimaryType {
    open spec fn from_xml_spec(doc: DocumentModel, nodes: Seq<char>) -> Result<
        ReleaseGroupPrimaryType,
        ErrorModel,
    > {
        required_spec::<ReleaseGroupPrimaryType>(doc, nodes)
    }

    fn from_xml(doc: &Document, nodes: &str) -> (r: Result<ReleaseGroupPrimaryType, Error>) {
        required::<ReleaseGroupPrimaryType>(doc, nodes)
    }
}

/// Secondary types of a release group. There can be any number of secondary
/// types.
#[derive(Clone, Copy, Debug, PartialEq, Eq, Structural)]
pub enum ReleaseGroupSecondaryType {
    Compilation,
    Soundtrack,
    Spokenword,
    Interview,
    Audiobook,
    Live,
    Remix,
    DjMix,
    MixtapeStreet,
}

impl DeepView for ReleaseGroupSecondaryType {
    type V = ReleaseGroupSecondaryType;

    open spec fn deep_view(&self) -> ReleaseGroupSecondaryType {
        *self
    }
}

impl ReleaseGroupSecondaryType {
    /// The word the database writes for this value.
    pub open spec fn word_spec(self) -> Seq<char> {
        match self {
            ReleaseGroupSecondaryType::Compilation => "Compilation"@,
            ReleaseGroupSecondaryType::Soundtrack => "Soundtrack"@,
            ReleaseGroupSecondaryType::Spokenword => "Spokenword"@,
            ReleaseGroupSecondaryType::Interview => "Interview"@,
            ReleaseGroupSecondaryType::Audiobook => "Audiobook"@,
            ReleaseGroupSecondaryType::Live => "Live"@,
            ReleaseGroupSecondaryType::Remix => "Remix"@,
            ReleaseGroupSecondaryType::DjMix => "DJ-mix"@,
            ReleaseGroupSecondaryType::MixtapeStreet => "Mixtape/Street"@,
        }
    }

    /// The word the database writes for this value.
    pub fn as_str(&self) -> (s: &'static str)
        ensures
            s@ == self.word_spec(),
    {
        match self {
            ReleaseGroupSecondaryType::Compilation => "Compilation",
            ReleaseGroupSecondaryType::Soundtrack => "Soundtrack",
            ReleaseGroupSecondaryType::Spokenword => "Spokenword",
            ReleaseGroupSecondaryType::Interview => "Interview",
            ReleaseGroupSecondaryType::Audiobook => "Audiobook",
            ReleaseGroupSecondaryType::Live => "Live",
            ReleaseGroupSecondaryType::Remix => "Remix",
            ReleaseGroupSecondaryType::DjMix => "DJ-mix",
            ReleaseGroupSecondaryType::MixtapeStreet => "Mixtape/Street",
        }
    }

    /// The word the database writes for this value.
    pub fn to_string(&self) -> (s: String)
        ensures
            s@ == self.word_spec(),
    {
        String::from_str(self.as_str())
    }
}

impl Keyword for ReleaseGroupSecondaryType {
    open spec fn kind_name() -> Seq<char> {
        "ReleaseGroupSecondaryType"@
    }

    open spec fn parse_spec(word: Seq<char>) -> Option<ReleaseGroupSecondaryType> {
        if word == "Compilation"@ {
            Some(ReleaseGroupSecondaryType::Compilation)
        } else if word == "Soundtrack"@ {
            Some(ReleaseGroupSecondaryType::Soundtrack)
        } else if word == "Spokenword"@ {
            Some(ReleaseGroupSecondaryType::Spokenword)
        } else if word == "Interview"@ {
            Some(ReleaseGroupSecondaryType::Interview)
        } else if word == "Audiobook"@ {
            Some(ReleaseGroupSecondaryType::Audiobook)
        } else if word == "Live"@ {
            Some(ReleaseGroupSecondaryType::Live)
        } else if word == "Remix"@ {
            Some(ReleaseGroupSecondaryType::Remix)
        } else if word == "DJ-mix"@ {
            Some(ReleaseGroupSecondaryType::DjMix)
        } else if word == "Mixtape/Street"@ {
            Some(ReleaseGroupSecondaryType::MixtapeStreet)
        } else {
            None
        }
    }

    fn name() -> (n: &'static str) {
        "ReleaseGroupSecondaryType"
    }

    fn from_word(word: &str) -> (r: Option<ReleaseGroupSecondaryType>) {
        if word.eq("Compilation") {
            Some(ReleaseGroupSecondaryType::Compilation)
        } else if word.eq("Soundtrack") {
            Some(ReleaseGroupSecondaryType::Soundtrack)
        } else if word.eq("Spokenword") {
            Some(ReleaseGroupSecondaryType::Spokenword)
        } else if word.eq("Interview") {
            Some(ReleaseGroupSecondaryType::Interview)
        } else if word.eq("Audiobook") {
            Some(ReleaseGroupSecondaryType::Audiobook)
        } else if word.eq("Live") {
            Some(ReleaseGroupSecondaryType::Live)
        } else if word.eq("Remix") {
            Some(ReleaseGroupSecondaryType::Remix)
        } else if word.eq("DJ-mix") {
            Some(ReleaseGroupSecondaryType::DjMix)
        } else if word.eq("Mixtape/Street") {
            Some(ReleaseGroupSecondaryType::MixtapeStreet)
        } else {
            None
        }
    }
}

impl FromXmlOptional for ReleaseGroupSecondaryType {
    open spec fn from_xml_optional_spec(doc: DocumentModel, nodes: Seq<char>) -> Result<
        Option<ReleaseGroupSecondaryType>,
        ErrorModel,
    > {
        optional_keyword_spec::<ReleaseGroupSecondaryType>(doc, nodes)
    }

    fn from_xml_optional(doc: &Document, nodes: &str) -> (r: Result<
        Option<ReleaseGroupSecondaryType>,
        Error,
    >) {
        read_optional_keyword::<ReleaseGroupSecondaryType>(doc, nodes)
    }
}

impl FromXml for ReleaseGroupSecondaryType {
    open spec fn from_xml_spec(doc: DocumentModel, nodes: Seq<char>) -> Result<
        ReleaseGroupSecondaryType,
        ErrorModel,
    > {
        required_spec::<ReleaseGroupSecondaryType>(doc, nodes)
    }

    fn from_xml(doc: &Document, nodes: &str) -> (r: Result<ReleaseGroupSecondaryType, Error>) {
        required::<ReleaseGroupSecondaryType>(doc, nodes)
    }
}

/// The type of a `ReleaseGroup`.
///
/// For more information consult: https://musicbrainz.org/doc/Release_Group/Type
#[derive(Clone, Debug, PartialEq, Eq)]
pub struct ReleaseGroupType {
    pub primary: Option<ReleaseGroupPrimaryType>,
    pub secondary: Vec<ReleaseGroupSecondaryType>,
}

/// Mathematical content of a [`ReleaseGroupType`].
pub struct ReleaseGroupTypeModel {
    pub primary: Option<ReleaseGroupPrimaryType>,
    pub secondary: Seq<ReleaseGroupSecondaryType>,
}

impl DeepView for ReleaseGroupType {
    type V = ReleaseGroupTypeModel;

    open spec fn deep_view(&self) -> ReleaseGroupTypeModel {
        ReleaseGroupTypeModel {
            primary: self.primary.deep_view(),
            secondary: self.secondary.deep_view(),
        }
    }
}

impl FromXml for ReleaseGroupType {
    /// The fields are read in the order given here; the first that fails
    /// decides the failure.
    open spec fn from_xml_spec(doc: DocumentModel, nodes: Seq<char>) -> Result<
        ReleaseGroupTypeModel,
        ErrorModel,
    > {
        let primary = ReleaseGroupPrimaryType::from_xml_optional_spec(
            doc,
            child_spec(nodes, ".//mb:primary-type/text()"@),
        );
        let secondary = list_spec::<ReleaseGroupSecondaryType>(
            doc,
            child_spec(nodes, ".//mb:secondary-type-list/mb:secondary-type/text()"@),
        );
        if primary is Err {
            Err(primary->Err_0)
        } else if secondary is Err {
            Err(secondary->Err_0)
        } else {
            Ok(
                ReleaseGroupTypeModel {
                    primary: primary->Ok_0,
                    secondary: secondary->Ok_0,
                },
            )
        }
    }

    fn from_xml(doc: &Document, nodes: &str) -> (r: Result<ReleaseGroupType, Error>) {
        let primary: Option<ReleaseGroupPrimaryType> = doc.read_optional(
            nodes,
            ".//mb:primary-type/text()",
        )?;
        let secondary: Vec<ReleaseGroupSecondaryType> = doc.read_list(
            nodes,
            ".//mb:secondary-type-list/mb:secondary-type/text()",
        )?;
        Ok(ReleaseGroupType { primary, secondary })
    }
}

/// The optional parts of a release group.
#[derive(Clone, Copy, Debug, PartialEq, Eq, Structural)]
pub struct ReleaseGroupOptions {
    pub annotation: bool,
    pub artists: bool,
    pub releases: bool,
}

impl ReleaseGroupOptions {
    /// Request everything from the server.
    pub fn everything() -> (options: Self)
        ensures
            options == (ReleaseGroupOptions { annotation: true, artists: true, releases: true }),
    {
        ReleaseGroupOptions { annotation: true, artists: true, releases: true }
    }

    /// Only request the minimal amount of fields.
    pub fn minimal() -> (options: Self)
        ensures
            options == (ReleaseGroupOptions {
                annotation: false,
                artists: false,
                releases: false,
            }),
    {
        ReleaseGroupOptions { annotation: false, artists: false, releases: false }
    }
}

/// The fields of a release group as the server sends them.
#[derive(Clone, Debug, PartialEq, Eq)]
pub struct ReleaseGroupResponse {
    /// MBID of the entity in the MusicBrainz database.
    pub mbid: Mbid,
    pub title: String,
    pub artists: Vec<ArtistRef>,
    pub releases: Vec<ReleaseRef>,
    pub release_type: ReleaseGroupType,
    pub disambiguation: Option<String>,
    pub annotation: Option<String>,
}

/// Mathematical content of a [`ReleaseGroupResponse`].
pub struct ReleaseGroupResponseModel {
    pub mbid: Mbid,
    pub title: Seq<char>,
    pub artists: Seq<ArtistRefModel>,
    pub releases: Seq<ReleaseRefModel>,
    pub release_type: ReleaseGroupTypeModel,
    pub disambiguation: Option<Seq<char>>,
    pub annotation: Option<Seq<char>>,
}

impl DeepView for ReleaseGroupResponse {
    type V = ReleaseGroupResponseModel;

    open spec fn deep_view(&self) -> ReleaseGroupResponseModel {
        ReleaseGroupResponseModel {
            mbid: self.mbid.deep_view(),
            title: self.title.deep_view(),
            artists: self.artists.deep_view(),
            releases: self.releases.deep_view(),
            release_type: self.release_type.deep_view(),
            disambiguation: self.disambiguation.deep_view(),
            annotation: self.annotation.deep_view(),
        }
    }
}

impl FromXml for ReleaseGroupResponse {
    /// The fields are read in the order given here; the first that fails
    /// decides the failure.
    open spec fn from_xml_spec(doc: DocumentModel, nodes: Seq<char>) -> Result<
        ReleaseGroupResponseModel,
        ErrorModel,
    > {
        let mbid = Mbid::from_xml_spec(doc, child_spec(nodes, ".//mb:release-group/@id"@));
        let title = String::from_xml_spec(
            doc,
            child_spec(nodes, ".//mb:release-group/mb:title/text()"@),
        );
        let releases = list_spec::<ReleaseRef>(
            doc,
            child_spec(nodes, ".//mb:release-group/mb:release-list/mb:release"@),
        );
        let artists = list_spec::<ArtistRef>(
            doc,
            child_spec(nodes, ".//mb:release-group/mb:artist-credit/mb:name-credit/mb:artist"@),
        );
        let release_type = ReleaseGroupType::from_xml_spec(
            doc,
            child_spec(nodes, ".//mb:release-group"@),
        );
        let disambiguation = String::from_xml_optional_spec(
            doc,
            child_spec(nodes, ".//mb:release-group/mb:disambiguation/text()"@),
        );
        let annotation = String::from_xml_optional_spec(
            doc,
            child_spec(nodes, ".//mb:release-group/mb:annotation/text()"@),
        );
        if mbid is Err {
            Err(mbid->Err_0)
        } else if title is Err {
            Err(title->Err_0)
        } else if releases is Err {
            Err(releases->Err_0)
        } else if artists is Err {
            Err(artists->Err_0)
        } else if release_type is Err {
            Err(release_type->Err_0)
        } else if disambiguation is Err {
            Err(disambiguation->Err_0)
        } else if annotation is Err {
            Err(annotation->Err_0)
        } else {
            Ok(
                ReleaseGroupResponseModel {
                    mbid: mbid->Ok_0,
                    title: title->Ok_0,
                    releases: releases->Ok_0,
                    artists: artists->Ok_0,
                    release_type: release_type->Ok_0,
                    disambiguation: disambiguation->Ok_0,
                    annotation: annotation->Ok_0,
                },
            )
        }
    }

    fn from_xml(doc: &Document, nodes: &str) -> (r: Result<ReleaseGroupResponse, Error>) {
        let mbid: Mbid = doc.read(nodes, ".//mb:release-group/@id")?;
        let title: String = doc.read(nodes, ".//mb:release-group/mb:title/text()")?;
        let releases: Vec<ReleaseRef> = doc.read_list(
            nodes,
            ".//mb:release-group/mb:release-list/mb:release",
        )?;
        let artists: Vec<ArtistRef> = doc.read_list(
            nodes,
            ".//mb:release-group/mb:artist-credit/mb:name-credit/mb:artist",
        )?;
        let release_type: ReleaseGroupType = doc.read(nodes, ".//mb:release-group")?;
        let disambiguation: Option<String> = doc.read_optional(
            nodes,
            ".//mb:release-group/mb:disambiguation/text()",
        )?;
        let annotation: Option<String> = doc.read_optional(
            nodes,
            ".//mb:release-group/mb:annotation/text()",
        )?;
        Ok(
            ReleaseGroupResponse {
                mbid,
                title,
                releases,
                artists,
                release_type,
                disambiguation,
                annotation,
            },
        )
    }
}

/// Groups multiple `Release`s into one a single logical entity.
///
/// Even if there is only one `Release` of a kind, it belongs to exactly one
/// `ReleaseGroup`.
#[derive(Clone, Debug)]
pub struct ReleaseGroup {
    response: ReleaseGroupResponse,
    options: ReleaseGroupOptions,
}

impl ReleaseGroup {
    /// MBID of the entity in the MusicBrainz database.
    pub fn mbid(&self) -> (r: &Mbid)
        ensures
            *r == self.response_spec().mbid,
    {
        &self.response.mbid
    }

    /// Title of the release group, usually the same as the title of the
    /// releases.
    pub fn title(&self) -> (r: &String)
        ensures
            *r == self.response_spec().title,
    {
        &self.response.title
    }

    /// The artists of a release group.
    pub fn artists(&self) -> (r: OnRequest<&Vec<ArtistRef>>)
        ensures
            r == OnRequest::from_value_spec(
                &self.response_spec().artists,
                self.options_spec().artists,
            ),
            r is NotRequested <==> !self.options_spec().artists,
    {
        OnRequest::from_value(&self.response.artists, self.options.artists)
    }

    /// Releases of this release group.
    pub fn releases(&self) -> (r: OnRequest<&Vec<ReleaseRef>>)
        ensures
            r == OnRequest::from_value_spec(
                &self.response_spec().releases,
                self.options_spec().releases,
            ),
            r is NotRequested <==> !self.options_spec().releases,
    {
        OnRequest::from_value(&self.response.releases, self.options.releases)
    }

    /// The type of this release group.
    pub fn release_type(&self) -> (r: &ReleaseGroupType)
        ensures
            *r == self.response_spec().release_type,
    {
        &self.response.release_type
    }

    /// A disambiguation comment if present, which allows to differentiate this
    /// release group easily from other releases with the same or very similar name.
    pub fn disambiguation(&self) -> (r: Option<&String>)
        ensures
            r == as_ref_spec(&self.response_spec().disambiguation),
    {
        self.response.disambiguation.as_ref()
    }

    /// Any additional free form annotation for this `ReleaseGroup`.
    pub fn annotation(&self) -> (r: OnRequest<&String>)
        ensures
            r == OnRequest::from_option_spec(
                as_ref_spec(&self.response_spec().annotation),
                self.options_spec().annotation,
            ),
            r is NotRequested <==> !self.options_spec().annotation,
    {
        OnRequest::from_option(self.response.annotation.as_ref(), self.options.annotation)
    }
}

impl Resource for ReleaseGroup {
    type Options = ReleaseGroupOptions;

    type Response = ReleaseGroupResponse;

    open spec fn name_spec() -> Seq<char> {
        "release-group"@
    }

    open spec fn toggles_spec(options: &ReleaseGroupOptions) -> Seq<(Seq<char>, bool)> {
        seq![
            ("annotation"@, options.annotation),
            ("artists"@, options.artists),
            ("releases"@, options.releases),
        ]
    }

    closed spec fn response_spec(&self) -> ReleaseGroupResponse {
        self.response
    }

    closed spec fn options_spec(&self) -> ReleaseGroupOptions {
        self.options
    }

    fn name() -> (n: &'static str) {
        "release-group"
    }

    fn request(options: &ReleaseGroupOptions) -> (r: Request) {
        let mut parts = Includes::new();
        parts.offer("annotation", options.annotation);
        parts.offer("artists", options.artists);
        parts.offer("releases", options.releases);
        assert(parts.toggles() == Self::toggles_spec(options));
        Request { name: String::from_str("release-group"), inc: parts.finish() }
    }

    fn from_response(response: ReleaseGroupResponse, options: ReleaseGroupOptions) -> (record:
        ReleaseGroup) {
        ReleaseGroup { response, options }
    }
}

} // verus!
