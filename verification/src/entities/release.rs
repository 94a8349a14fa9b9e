//! Releases.

use vstd::prelude::*;
use crate::client::{Includes, Request};
use crate::entities::date::PartialDate;
use crate::entities::helper::{
    duration_spec, optional_keyword_spec, read_mb_duration, read_optional_keyword, Keyword,
};
use crate::entities::lang::Language;
use crate::entities::mbid::Mbid;
use crate::entities::on_request::{as_ref_spec, OnRequest};
use crate::entities::refs::{
    ArtistRef, ArtistRefModel, LabelRef, LabelRefModel, RecordingRef, RecordingRefModel,
};
use crate::entities::Resource;
use crate::error::{Error, ErrorModel};
use crate::xml::{
    child_spec, list_spec, required, required_spec, Document, DocumentModel, FromXml,
    FromXmlOptional,
};

verus! {

/// The parts a release is made of.
#[derive(Clone, Copy, Debug, PartialEq, Eq, Structural)]
pub enum ReleaseComponent {
    Base,
    Aliases,
    Annotation,
}

/// What a release can be related to.
#[derive(Clone, Copy, Debug, PartialEq, Eq, Structural)]
pub enum ReleaseRelations {
    Artists,
    Labels,
    Recordings,
}

/// How official a release is.
#[derive(Clone, Copy, Debug, PartialEq, Eq, Structural)]
pub enum ReleaseStatus {
    /// Release officially sanctioned by the artist and/or their record company.
    Official,
    /// A give-away release or a release intended to promote an upcoming
    /// official release.
    Promotion,
    /// Unofficial/underground release that was not sanctioned by the artist
    /// and/or the record company.
    /// Includes unofficial live recordings and pirated releases.
    Bootleg,
    /// An alternate version of a release where the titles have been changed,
    /// usually for transliteration.
    ///
    /// These don't correspond to a real release and should be linked to the
    /// actual release using the transliteration relationship.
    PseudoRelease,
}

impl DeepView for ReleaseStatus {
    type V = ReleaseStatus;

    open spec fn deep_view(&self) -> ReleaseStatus {
        *self
    }
}

impl ReleaseStatus {
    /// The word the database writes for this value.
    pub open spec fn word_spec(self) -> Seq<char> {
        match self {
            ReleaseStatus::Official => "Official"@,
            ReleaseStatus::Promotion => "Promotion"@,
            ReleaseStatus::Bootleg => "Bootleg"@,
            ReleaseStatus::PseudoRelease => "Pseudo-Release"@,
        }
    }

    /// The word the database writes for this value.
    pub fn as_str(&self) -> (s: &'static str)
        ensures
            s@ == self.word_spec(),
    {
        match self {
            ReleaseStatus::Official => "Official",
            ReleaseStatus::Promotion => "Promotion",
            ReleaseStatus::Bootleg => "Bootleg",
            ReleaseStatus::PseudoRelease => "Pseudo-Release",
        }
    }

    /// The word the database writes for this value.
    pub fn to_string(&self) -> (s: String)
        ensures
            s@ == self.word_spec(),
    {
        String::from_str(self.as_str())
    }
}

impl Keyword for ReleaseStatus {
    open spec fn kind_name() -> Seq<char> {
        "ReleaseStatus"@
    }

    open spec fn parse_spec(word: Seq<char>) -> Option<ReleaseStatus> {
        if word == "Official"@ {
            Some(ReleaseStatus::Official)
        } else if word == "Promotion"@ {
            Some(ReleaseStatus::Promotion)
        } else if word == "Bootleg"@ {
            Some(ReleaseStatus::Bootleg)
        } else if word == "Pseudo-Release"@ {
            Some(ReleaseStatus::PseudoRelease)
        } else {
            None
        }
    }

    fn name() -> (n: &'static str) {
        "ReleaseStatus"
    }

    fn from_word(word: &str) -> (r: Option<ReleaseStatus>) {
        if word.eq("Official") {
            Some(ReleaseStatus::Official)
        } else if word.eq("Promotion") {
            Some(ReleaseStatus::Promotion)
        } else if word.eq("Bootleg") {
            Some(ReleaseStatus::Bootleg)
        } else if word.eq("Pseudo-Release") {
            Some(ReleaseStatus::PseudoRelease)
        } else {
            None
        }
    }
}

impl FromXmlOptional for ReleaseStatus {
    open spec fn from_xml_optional_spec(doc: DocumentModel, nodes: Seq<char>) -> Result<
        Option<ReleaseStatus>,
        ErrorModel,
    > {
        optional_keyword_spec::<ReleaseStatus>(doc, nodes)
    }

    fn from_xml_optional(doc: &Document, nodes: &str) -> (r: Result<
        Option<ReleaseStatus>,
        Error,
    >) {
        read_optional_keyword::<ReleaseStatus>(doc, nodes)
    }
}

impl FromXml for ReleaseStatus {
    open spec fn from_xml_spec(doc: DocumentModel, nodes: Seq<char>) -> Result<
        ReleaseStatus,
        ErrorModel,
    > {
        required_spec::<ReleaseStatus>(doc, nodes)
    }

    fn from_xml(doc: &Document, nodes: &str) -> (r: Result<ReleaseStatus, Error>) {
        required::<ReleaseStatus>(doc, nodes)
    }
}

/// The optional parts of a release.
#[derive(Clone, Copy, Debug, PartialEq, Eq, Structural)]
pub struct ReleaseOptions {
    pub annotation: bool,
    pub artists: bool,
    pub recordings: bool,
    pub labels: bool,
}

impl ReleaseOptions {
    /// Request everything from the server.
    pub fn everything() -> (options: Self)
        ensures
            options == (ReleaseOptions {
                annotation: true,
                artists: true,
                recordings: true,
                labels: true,
            }),
    {
        ReleaseOptions {
            annotation: true,
            artists: true,
            recordings: true,
            labels: true,
        }
    }

    /// Only request the minimal amount of fields.
    pub fn minimal() -> (options: Self)
        ensures
            options == (ReleaseOptions {
                annotation: false,
                artists: false,
                recordings: false,
                labels: false,
            }),
    {
        ReleaseOptions {
            annotation: false,
            artists: false,
            recordings: false,
            labels: false,
        }
    }
}

/// Describes a single track, `Releases` consist of multiple `ReleaseTrack`s.
#[derive(Clone, Debug, PartialEq, Eq)]
pub struct ReleaseTrack {
    /// MBID of the entity in the MusicBrainz database.
    pub mbid: Mbid,
    /// The position of the track on the `Release`.
    pub position: u16,
    /// The track number as listed in the release.
    ///
    /// For CDs this will usually be numbers, but for example for vinyl this is
    /// "A", "AA", etc.
    pub number: String,
    /// The title of the track.
    pub title: String,
    /// The length of the track, in milliseconds.
    pub length: Option<u64>,
    /// The recording used for the track.
    pub recording: RecordingRef,
}

/// Mathematical content of a [`ReleaseTrack`].
pub struct ReleaseTrackModel {
    pub mbid: Mbid,
    pub position: u16,
    pub number: Seq<char>,
    pub title: Seq<char>,
    pub length: Option<u64>,
    pub recording: RecordingRefModel,
}

impl DeepView for ReleaseTrack {
    type V = ReleaseTrackModel;

    open spec fn deep_view(&self) -> ReleaseTrackModel {
        ReleaseTrackModel {
            mbid: self.mbid.deep_view(),
            position: self.position.deep_view(),
            number: self.number.deep_view(),
            title: self.title.deep_view(),
            length: self.length.deep_view(),
            recording: self.recording.deep_view(),
        }
    }
}

impl FromXml for ReleaseTrack {
    /// The fields are read in the order given here; the first that fails
    /// decides the failure.
    open spec fn from_xml_spec(doc: DocumentModel, nodes: Seq<char>) -> Result<
        ReleaseTrackModel,
        ErrorModel,
    > {
        let mbid = Mbid::from_xml_spec(doc, child_spec(nodes, ".//@id"@));
        let position = u16::from_xml_spec(doc, child_spec(nodes, ".//mb:position/text()"@));
        let number = String::from_xml_spec(doc, child_spec(nodes, ".//mb:number/text()"@));
        let title = String::from_xml_spec(doc, child_spec(nodes, ".//mb:title/text()"@));
        let length = duration_spec(doc, nodes, ".//mb:length/text()"@);
        let recording = RecordingRef::from_xml_spec(doc, child_spec(nodes, ".//mb:recording"@));
        if mbid is Err {
            Err(mbid->Err_0)
        } else if position is Err {
            Err(position->Err_0)
        } else if number is Err {
            Err(number->Err_0)
        } else if title is Err {
            Err(title->Err_0)
        } else if length is Err {
            Err(length->Err_0)
        } else if recording is Err {
            Err(recording->Err_0)
        } else {
            Ok(
                ReleaseTrackModel {
                    mbid: mbid->Ok_0,
                    position: position->Ok_0,
                    number: number->Ok_0,
                    title: title->Ok_0,
                    length: length->Ok_0,
                    recording: recording->Ok_0,
                },
            )
        }
    }

    fn from_xml(doc: &Document, nodes: &str) -> (r: Result<ReleaseTrack, Error>) {
        let mbid: Mbid = doc.read(nodes, ".//@id")?;
        let position: u16 = doc.read(nodes, ".//mb:position/text()")?;
        let number: String = doc.read(nodes, ".//mb:number/text()")?;
        let title: String = doc.read(nodes, ".//mb:title/text()")?;
        let length: Option<u64> = read_mb_duration(doc, nodes, ".//mb:length/text()")?;
        let recording: RecordingRef = doc.read(nodes, ".//mb:recording")?;
        Ok(ReleaseTrack { mbid, position, number, title, length, recording })
    }
}

/// A medium is a collection of multiple `ReleaseTrack`.
///
/// For physical releases one medium might equal one CD, so an album released
/// as a release with two CDs would have two associated `ReleaseMedium`
/// instances.
#[derive(Clone, Debug, PartialEq, Eq)]
pub struct ReleaseMedium {
    /// The medium's position number providing a total order between all
    /// mediums of one `Release`.
    pub position: u16,
    /// The format of this `ReleaseMedium`.
    pub format: Option<String>,
    /// The tracks stored on this medium.
    pub tracks: Vec<ReleaseTrack>,
}

/// Mathematical content of a [`ReleaseMedium`].
pub struct ReleaseMediumModel {
    pub position: u16,
    pub format: Option<Seq<char>>,
    pub tracks: Seq<ReleaseTrackModel>,
}

impl DeepView for ReleaseMedium {
    type V = ReleaseMediumModel;

    open spec fn deep_view(&self) -> ReleaseMediumModel {
        ReleaseMediumModel {
            position: self.position.deep_view(),
            format: self.format.deep_view(),
            tracks: self.tracks.deep_view(),
        }
    }
}

impl FromXml for ReleaseMedium {
    /// The fields are read in the order given here; the first that fails
    /// decides the failure.
    open spec fn from_xml_spec(doc: DocumentModel, nodes: Seq<char>) -> Result<
        ReleaseMediumModel,
        ErrorModel,
    > {
        let position = u16::from_xml_spec(doc, child_spec(nodes, ".//mb:position/text()"@));
        let format = String::from_xml_optional_spec(
            doc,
            child_spec(nodes, ".//mb:format/text()"@),
        );
        let tracks = list_spec::<ReleaseTrack>(
            doc,
            child_spec(nodes, ".//mb:track-list/mb:track"@),
        );
        if position is Err {
            Err(position->Err_0)
        } else if format is Err {
            Err(format->Err_0)
        } else if tracks is Err {
            Err(tracks->Err_0)
        } else {
            Ok(
                ReleaseMediumModel {
                    position: position->Ok_0,
                    format: format->Ok_0,
                    tracks: tracks->Ok_0,
                },
            )
        }
    }

    fn from_xml(doc: &Document, nodes: &str) -> (r: Result<ReleaseMedium, Error>) {
        let position: u16 = doc.read(nodes, ".//mb:position/text()")?;
        let format: Option<String> = doc.read_optional(nodes, ".//mb:format/text()")?;
        let tracks: Vec<ReleaseTrack> = doc.read_list(nodes, ".//mb:track-list/mb:track")?;
        Ok(ReleaseMedium { position, format, tracks })
    }
}

/// Lists information about a `Release`.
///
/// Note that its both possible to find a `LabelInfo` with only one of `label`
/// or `catalog_number`.
#[derive(Clone, Debug, PartialEq, Eq)]
pub struct LabelInfo {
    /// A reference to the label issuing the release.
    pub label: Option<LabelRef>,
    /// Catalog number of the release as released by the label.
    pub catalog_number: Option<String>,
}

/// Mathematical content of a [`LabelInfo`].
pub struct LabelInfoModel {
    pub label: Option<LabelRefModel>,
    pub catalog_number: Option<Seq<char>>,
}

impl DeepView for LabelInfo {
    type V = LabelInfoModel;

    open spec fn deep_view(&self) -> LabelInfoModel {
        LabelInfoModel {
            label: self.label.deep_view(),
            catalog_number: self.catalog_number.deep_view(),
        }
    }
}

impl FromXml for LabelInfo {
    /// There is a label where an identifier is found, and then the label is
    /// read from the same nodes. The catalog number is read after it.
    open spec fn from_xml_spec(doc: DocumentModel, nodes: Seq<char>) -> Result<
        LabelInfoModel,
        ErrorModel,
    > {
        let id = doc.optional_text(child_spec(nodes, ".//@id"@));
        let label = if id is Err {
            Err(id->Err_0)
        } else if id->Ok_0 is None {
            Ok(None)
        } else {
            match LabelRef::from_xml_spec(doc, child_spec(nodes, "."@)) {
                Ok(label) => Ok(Some(label)),
                Err(e) => Err(e),
            }
        };
        let catalog_number = doc.optional_text(child_spec(nodes, ".//mb:catalog-number/text()"@));
        if label is Err {
            Err(label->Err_0)
        } else if catalog_number is Err {
            Err(catalog_number->Err_0)
        } else {
            Ok(LabelInfoModel { label: label->Ok_0, catalog_number: catalog_number->Ok_0 })
        }
    }

    fn from_xml(doc: &Document, nodes: &str) -> (r: Result<LabelInfo, Error>) {
        let id: Option<String> = doc.read_optional(nodes, ".//@id")?;
        let label: Option<LabelRef> = match id {
            Some(_) => {
                let label: LabelRef = doc.read(nodes, ".")?;
                Some(label)
            },
            None => None,
        };
        let catalog_number: Option<String> = doc.read_optional(
            nodes,
            ".//mb:catalog-number/text()",
        )?;
        Ok(LabelInfo { label, catalog_number })
    }
}

/// A `Release` is any publication of one or more tracks.
#[derive(Clone, Debug, PartialEq, Eq)]
pub struct ReleaseResponse {
    /// MBID of the entity in the MusicBrainz database.
    pub mbid: Mbid,
    pub title: String,
    pub artists: Vec<ArtistRef>,
    pub date: Option<PartialDate>,
    pub country: Option<String>,
    pub labels: Vec<LabelInfo>,
    pub barcode: Option<String>,
    pub status: Option<ReleaseStatus>,
    pub packaging: Option<String>,
    pub language: Option<Language>,
    pub script: Option<String>,
    pub disambiguation: Option<String>,
    pub annotation: Option<String>,
    pub mediums: Vec<ReleaseMedium>,
}

/// Mathematical content of a [`ReleaseResponse`].
pub struct ReleaseResponseModel {
    pub mbid: Mbid,
    pub title: Seq<char>,
    pub artists: Seq<ArtistRefModel>,
    pub date: Option<PartialDate>,
    pub country: Option<Seq<char>>,
    pub labels: Seq<LabelInfoModel>,
    pub barcode: Option<Seq<char>>,
    pub status: Option<ReleaseStatus>,
    pub packaging: Option<Seq<char>>,
    pub language: Option<Seq<char>>,
    pub script: Option<Seq<char>>,
    pub disambiguation: Option<Seq<char>>,
    pub annotation: Option<Seq<char>>,
    pub mediums: Seq<ReleaseMediumModel>,
}

impl DeepView for ReleaseResponse {
    type V = ReleaseResponseModel;

    open spec fn deep_view(&self) -> ReleaseResponseModel {
        ReleaseResponseModel {
            mbid: self.mbid.deep_view(),
            title: self.title.deep_view(),
            artists: self.artists.deep_view(),
            date: self.date.deep_view(),
            country: self.country.deep_view(),
            labels: self.labels.deep_view(),
            barcode: self.barcode.deep_view(),
            status: self.status.deep_view(),
            packaging: self.packaging.deep_view(),
            language: self.language.deep_view(),
            script: self.script.deep_view(),
            disambiguation: self.disambiguation.deep_view(),
            annotation: self.annotation.deep_view(),
            mediums: self.mediums.deep_view(),
        }
    }
}

impl FromXml for ReleaseResponse {
    /// The fields are read in the order given here; the first that fails
    /// decides the failure.
    open spec fn from_xml_spec(doc: DocumentModel, nodes: Seq<char>) -> Result<
        ReleaseResponseModel,
        ErrorModel,
    > {
        let annotation = String::from_xml_optional_spec(
            doc,
            child_spec(nodes, ".//mb:release/mb:annotation/mb:text/text()"@),
        );
        let artists = list_spec::<ArtistRef>(
            doc,
            child_spec(nodes, ".//mb:release/mb:artist-credit/mb:name-credit"@),
        );
        let barcode = String::from_xml_optional_spec(
            doc,
            child_spec(nodes, ".//mb:release/mb:barcode/text()"@),
        );
        let country = String::from_xml_optional_spec(
            doc,
            child_spec(nodes, ".//mb:release/mb:country/text()"@),
        );
        let date = PartialDate::from_xml_optional_spec(
            doc,
            child_spec(nodes, ".//mb:release/mb:date/text()"@),
        );
        let disambiguation = String::from_xml_optional_spec(
            doc,
            child_spec(nodes, ".//mb:release/mb:disambiguation/text()"@),
        );
        let labels = list_spec::<LabelInfo>(
            doc,
            child_spec(nodes, ".//mb:release/mb:label-info-list/mb:label-info"@),
        );
        let language = Language::from_xml_optional_spec(
            doc,
            child_spec(nodes, ".//mb:release/mb:text-representation/mb:language/text()"@),
        );
        let mbid = Mbid::from_xml_spec(doc, child_spec(nodes, ".//mb:release/@id"@));
        let mediums = list_spec::<ReleaseMedium>(
            doc,
            child_spec(nodes, ".//mb:release/mb:medium-list/mb:medium"@),
        );
        let packaging = String::from_xml_optional_spec(
            doc,
            child_spec(nodes, ".//mb:release/mb:packaging/text()"@),
        );
        let script = String::from_xml_optional_spec(
            doc,
            child_spec(nodes, ".//mb:release/mb:text-representation/mb:script/text()"@),
        );
        let status = ReleaseStatus::from_xml_optional_spec(
            doc,
            child_spec(nodes, ".//mb:release/mb:status/text()"@),
        );
        let title = String::from_xml_spec(
            doc,
            child_spec(nodes, ".//mb:release/mb:title/text()"@),
        );
        if annotation is Err {
            Err(annotation->Err_0)
        } else if artists is Err {
            Err(artists->Err_0)
        } else if barcode is Err {
            Err(barcode->Err_0)
        } else if country is Err {
            Err(country->Err_0)
        } else if date is Err {
            Err(date->Err_0)
        } else if disambiguation is Err {
            Err(disambiguation->Err_0)
        } else if labels is Err {
            Err(labels->Err_0)
        } else if language is Err {
            Err(language->Err_0)
        } else if mbid is Err {
            Err(mbid->Err_0)
        } else if mediums is Err {
            Err(mediums->Err_0)
        } else if packaging is Err {
            Err(packaging->Err_0)
        } else if script is Err {
            Err(script->Err_0)
        } else if status is Err {
            Err(status->Err_0)
        } else if title is Err {
            Err(title->Err_0)
        } else {
            Ok(
                ReleaseResponseModel {
                    annotation: annotation->Ok_0,
                    artists: artists->Ok_0,
                    barcode: barcode->Ok_0,
                    country: country->Ok_0,
                    date: date->Ok_0,
                    disambiguation: disambiguation->Ok_0,
                    labels: labels->Ok_0,
                    language: language->Ok_0,
                    mbid: mbid->Ok_0,
                    mediums: mediums->Ok_0,
                    packaging: packaging->Ok_0,
                    script: script->Ok_0,
                    status: status->Ok_0,
                    title: title->Ok_0,
                },
            )
        }
    }

    fn from_xml(doc: &Document, nodes: &str) -> (r: Result<ReleaseResponse, Error>) {
        let annotation: Option<String> = doc.read_optional(
            nodes,
            ".//mb:release/mb:annotation/mb:text/text()",
        )?;
        let artists: Vec<ArtistRef> = doc.read_list(
            nodes,
            ".//mb:release/mb:artist-credit/mb:name-credit",
        )?;
        let barcode: Option<String> = doc.read_optional(nodes, ".//mb:release/mb:barcode/text()")?;
        let country: Option<String> = doc.read_optional(nodes, ".//mb:release/mb:country/text()")?;
        let date: Option<PartialDate> = doc.read_optional(nodes, ".//mb:release/mb:date/text()")?;
        let disambiguation: Option<String> = doc.read_optional(
            nodes,
            ".//mb:release/mb:disambiguation/text()",
        )?;
        let labels: Vec<LabelInfo> = doc.read_list(
            nodes,
            ".//mb:release/mb:label-info-list/mb:label-info",
        )?;
        let language: Option<Language> = doc.read_optional(
            nodes,
            ".//mb:release/mb:text-representation/mb:language/text()",
        )?;
        let mbid: Mbid = doc.read(nodes, ".//mb:release/@id")?;
        let mediums: Vec<ReleaseMedium> = doc.read_list(
            nodes,
            ".//mb:release/mb:medium-list/mb:medium",
        )?;
        let packaging: Option<String> = doc.read_optional(
            nodes,
            ".//mb:release/mb:packaging/text()",
        )?;
        let script: Option<String> = doc.read_optional(
            nodes,
            ".//mb:release/mb:text-representation/mb:script/text()",
        )?;
        let status: Option<ReleaseStatus> = doc.read_optional(
            nodes,
            ".//mb:release/mb:status/text()",
        )?;
        let title: String = doc.read(nodes, ".//mb:release/mb:title/text()")?;
        Ok(
            ReleaseResponse {
                annotation,
                artists,
                barcode,
                country,
                date,
                disambiguation,
                labels,
                language,
                mbid,
                mediums,
                packaging,
                script,
                status,
                title,
            },
        )
    }
}

/// A publication of one or more tracks, with the options it was fetched
/// with.
#[derive(Clone, Debug)]
pub struct Release {
    response: ReleaseResponse,
    options: ReleaseOptions,
}

impl Release {
    /// MBID of the entity in the MusicBrainz database.
    pub fn mbid(&self) -> (r: &Mbid)
        ensures
            *r == self.response_spec().mbid,
    {
        &self.response.mbid
    }

    /// The title of the release.
    pub fn title(&self) -> (r: &String)
        ensures
            *r == self.response_spec().title,
    {
        &self.response.title
    }

    /// The date the release was issued.
    pub fn date(&self) -> (r: Option<&PartialDate>)
        ensures
            r == as_ref_spec(&self.response_spec().date),
    {
        self.response.date.as_ref()
    }

    /// The country the release was issued in.
    pub fn country(&self) -> (r: Option<&String>)
        ensures
            r == as_ref_spec(&self.response_spec().country),
    {
        self.response.country.as_ref()
    }

    /// Release status of the release.
    pub fn status(&self) -> (r: Option<ReleaseStatus>)
        ensures
            r == self.response_spec().status,
    {
        self.response.status
    }

    /// Barcode of the release, if it has one.
    pub fn barcode(&self) -> (r: Option<&String>)
        ensures
            r == as_ref_spec(&self.response_spec().barcode),
    {
        self.response.barcode.as_ref()
    }

    /// Packaging of the release.
    pub fn packaging(&self) -> (r: Option<&String>)
        ensures
            r == as_ref_spec(&self.response_spec().packaging),
    {
        self.response.packaging.as_ref()
    }

    /// Language of the release. (ISO 639-3 conformant string in DB.)
    pub fn language(&self) -> (r: Option<&Language>)
        ensures
            r == as_ref_spec(&self.response_spec().language),
    {
        self.response.language.as_ref()
    }

    /// Script used to write the track list. (ISO 15924 conformant string in DB.)
    pub fn script(&self) -> (r: Option<&String>)
        ensures
            r == as_ref_spec(&self.response_spec().script),
    {
        self.response.script.as_ref()
    }

    /// A disambiguation comment if present, which allows to differentiate this
    /// release easily from other releases with the same or very similar name.
    pub fn disambiguation(&self) -> (r: Option<&String>)
        ensures
            r == as_ref_spec(&self.response_spec().disambiguation),
    {
        self.response.disambiguation.as_ref()
    }

    /// Any additional free form annotation for this `Release`.
    pub fn annotation(&self) -> (r: OnRequest<&String>)
        ensures
            r == OnRequest::from_option_spec(
                as_ref_spec(&self.response_spec().annotation),
                self.options_spec().annotation,
            ),
            r is NotRequested <==> !self.options_spec().annotation,
    {
        OnRequest::from_option(self.response.annotation.as_ref(), self.options.annotation)
    }

    /// The mediums (disks) of the release.
    pub fn mediums(&self) -> (r: OnRequest<&Vec<ReleaseMedium>>)
        ensures
            r == OnRequest::from_value_spec(
                &self.response_spec().mediums,
                self.options_spec().recordings,
            ),
            r is NotRequested <==> !self.options_spec().recordings,
    {
        OnRequest::from_value(&self.response.mediums, self.options.recordings)
    }

    /// The artists that the release is primarily credited to.
    pub fn artists(&self) -> (r: OnRequest<&Vec<ArtistRef>>)
        ensures
            r == OnRequest::from_value_spec(
                &self.response_spec().artists,
                self.options_spec().artists,
            ),
            r is NotRequested <==> !self.options_spec().artists,
    {
        OnRequest::from_value(&self.response.artists, self.options.artists)
    }

    /// The labels which issued this release.
    pub fn labels(&self) -> (r: OnRequest<&Vec<LabelInfo>>)
        ensures
            r == OnRequest::from_value_spec(
                &self.response_spec().labels,
                self.options_spec().labels,
            ),
            r is NotRequested <==> !self.options_spec().labels,
    {
        OnRequest::from_value(&self.response.labels, self.options.labels)
    }
}

impl Resource for Release {
    type Options = ReleaseOptions;

    type Response = ReleaseResponse;

    open spec fn name_spec() -> Seq<char> {
        "release"@
    }

    open spec fn toggles_spec(options: &ReleaseOptions) -> Seq<(Seq<char>, bool)> {
        seq![
            ("annotation"@, options.annotation),
            ("artists"@, options.artists),
            ("labels"@, options.labels),
            ("recordings"@, options.recordings),
        ]
    }

    closed spec fn response_spec(&self) -> ReleaseResponse {
        self.response
    }

    closed spec fn options_spec(&self) -> ReleaseOptions {
        self.options
    }

    fn name() -> (n: &'static str) {
        "release"
    }

    fn request(options: &ReleaseOptions) -> (r: Request) {
        let mut parts = Includes::new();
        parts.offer("annotation", options.annotation);
        parts.offer("artists", options.artists);
        parts.offer("labels", options.labels);
        parts.offer("recordings", options.recordings);
        assert(parts.toggles() == Self::toggles_spec(options));
        Request { name: String::from_str("release"), inc: parts.finish() }
    }

    fn from_response(response: ReleaseResponse, options: ReleaseOptions) -> (record: Release) {
        Release { response, options }
    }
}

} // verus!
