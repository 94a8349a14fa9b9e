//! Series.

use vstd::prelude::*;
use crate::entities::helper::{keyword_spec, read_keyword, Keyword};
use crate::entities::mbid::Mbid;
use crate::entities::ResourceOld;
use crate::error::{Error, ErrorModel};
use crate::xml::{child_spec, list_spec, Document, DocumentModel, FromXml, FromXmlOptional};

verus! {

/// What the members of a series are.
#[derive(Clone, Copy, Debug, PartialEq, Eq, Structural)]
pub enum SeriesType {
    ReleaseGroup,
    Release,
    Recording,
    Work,
    Catalogue,
    Event,
    Tour,
    Festival,
    Run,
}

impl DeepView for SeriesType {
    type V = SeriesType;

    open spec fn deep_view(&self) -> SeriesType {
        *self
    }
}

impl SeriesType {
    /// The word the database writes for this value.
    pub open spec fn word_spec(self) -> Seq<char> {
        match self {
            SeriesType::ReleaseGroup => "Release group"@,
            SeriesType::Release => "Release"@,
            SeriesType::Recording => "Recording"@,
            SeriesType::Work => "Work"@,
            SeriesType::Catalogue => "Catalogue"@,
            SeriesType::Event => "Event"@,
            SeriesType::Tour => "Tour"@,
            SeriesType::Festival => "Festival"@,
            SeriesType::Run => "Run"@,
        }
    }

    /// The word the database writes for this value.
    pub fn as_str(&self) -> (s: &'static str)
        ensures
            s@ == self.word_spec(),
    {
        match self {
            SeriesType::ReleaseGroup => "Release group",
            SeriesType::Release => "Release",
            SeriesType::Recording => "Recording",
            SeriesType::Work => "Work",
            SeriesType::Catalogue => "Catalogue",
            SeriesType::Event => "Event",
            SeriesType::Tour => "Tour",
            SeriesType::Festival => "Festival",
            SeriesType::Run => "Run",
        }
    }

    /// The word the database writes for this value.
    pub fn to_string(&self) -> (s: String)
        ensures
            s@ == self.word_spec(),
    {
        String::from_str(self.as_str())
    }
}

impl Keyword for SeriesType {
    open spec fn kind_name() -> Seq<char> {
        "SeriesType"@
    }

    open spec fn parse_spec(word: Seq<char>) -> Option<SeriesType> {
        if word == "Release group"@ {
            Some(SeriesType::ReleaseGroup)
        } else if word == "Release"@ {
            Some(SeriesType::Release)
        } else if word == "Recording"@ {
            Some(SeriesType::Recording)
        } else if word == "Work"@ {
            Some(SeriesType::Work)
        } else if word == "Catalogue"@ {
            Some(SeriesType::Catalogue)
        } else if word == "Event"@ {
            Some(SeriesType::Event)
        } else if word == "Tour"@ {
            Some(SeriesType::Tour)
        } else if word == "Festival"@ {
            Some(SeriesType::Festival)
        } else if word == "Run"@ {
            Some(SeriesType::Run)
        } else {
            None
        }
    }

    fn name() -> (n: &'static str) {
        "SeriesType"
    }

    fn from_word(word: &str) -> (r: Option<SeriesType>) {
        if word.eq("Release group") {
            Some(SeriesType::ReleaseGroup)
        } else if word.eq("Release") {
            Some(SeriesType::Release)
        } else if word.eq("Recording") {
            Some(SeriesType::Recording)
        } else if word.eq("Work") {
            Some(SeriesType::Work)
        } else if word.eq("Catalogue") {
            Some(SeriesType::Catalogue)
        } else if word.eq("Event") {
            Some(SeriesType::Event)
        } else if word.eq("Tour") {
            Some(SeriesType::Tour)
        } else if word.eq("Festival") {
            Some(SeriesType::Festival)
        } else if word.eq("Run") {
            Some(SeriesType::Run)
        } else {
            None
        }
    }
}

impl FromXml for SeriesType {
    open spec fn from_xml_spec(doc: DocumentModel, nodes: Seq<char>) -> Result<
        SeriesType,
        ErrorModel,
    > {
        keyword_spec::<SeriesType>(doc, nodes)
    }

    fn from_xml(doc: &Document, nodes: &str) -> (r: Result<SeriesType, Error>) {
        read_keyword::<SeriesType>(doc, nodes)
    }
}

/// A sequence of separate entities with a common theme.
#[derive(Clone, Debug, PartialEq, Eq)]
pub struct Series {
    /// MBID of the entity in the MusicBrainz database.
    pub mbid: Mbid,
    /// Type of the series.
    pub series_type: SeriesType,
    pub aliases: Vec<String>,
    pub disambiguation: Option<String>,
    /// Any additional free form annotation for this `Series`.
    pub annotation: Option<String>,
}

/// Mathematical content of a [`Series`].
pub struct SeriesModel {
    pub mbid: Mbid,
    pub series_type: SeriesType,
    pub aliases: Seq<Seq<char>>,
    pub disambiguation: Option<Seq<char>>,
    pub annotation: Option<Seq<char>>,
}

impl DeepView for Series {
    type V = SeriesModel;

    open spec fn deep_view(&self) -> SeriesModel {
        SeriesModel {
            mbid: self.mbid.deep_view(),
            series_type: self.series_type.deep_view(),
            aliases: self.aliases.deep_view(),
            disambiguation: self.disambiguation.deep_view(),
            annotation: self.annotation.deep_view(),
        }
    }
}

impl FromXml for Series {
    /// The fields are read in the order given here; the first that fails
    /// decides the failure.
    open spec fn from_xml_spec(doc: DocumentModel, nodes: Seq<char>) -> Result<
        SeriesModel,
        ErrorModel,
    > {
        let mbid = Mbid::from_xml_spec(doc, child_spec(nodes, ".//mb:series/@id"@));
        let series_type = SeriesType::from_xml_spec(doc, child_spec(nodes, ".//mb:series/@type"@));
        let aliases = list_spec::<String>(
            doc,
            child_spec(nodes, ".//mb:series/mb:alias-list/mb:alias/text()"@),
        );
        let disambiguation = String::from_xml_optional_spec(
            doc,
            child_spec(nodes, ".//mb:series/mb:disambiguation/text()"@),
        );
        let annotation = String::from_xml_optional_spec(
            doc,
            child_spec(nodes, ".//mb:series/mb:annotation/text()"@),
        );
        if mbid is Err {
            Err(mbid->Err_0)
        } else if series_type is Err {
            Err(series_type->Err_0)
        } else if aliases is Err {
            Err(aliases->Err_0)
        } else if disambiguation is Err {
            Err(disambiguation->Err_0)
        } else if annotation is Err {
            Err(annotation->Err_0)
        } else {
            Ok(
                SeriesModel {
                    mbid: mbid->Ok_0,
                    series_type: series_type->Ok_0,
                    aliases: aliases->Ok_0,
                    disambiguation: disambiguation->Ok_0,
                    annotation: annotation->Ok_0,
                },
            )
        }
    }

    fn from_xml(doc: &Document, nodes: &str) -> (r: Result<Series, Error>) {
        let mbid: Mbid = doc.read(nodes, ".//mb:series/@id")?;
        let series_type: SeriesType = doc.read(nodes, ".//mb:series/@type")?;
        let aliases: Vec<String> = doc.read_list(
            nodes,
            ".//mb:series/mb:alias-list/mb:alias/text()",
        )?;
        let disambiguation: Option<String> = doc.read_optional(
            nodes,
            ".//mb:series/mb:disambiguation/text()",
        )?;
        let annotation: Option<String> = doc.read_optional(
            nodes,
            ".//mb:series/mb:annotation/text()",
        )?;
        Ok(Series { mbid, series_type, aliases, disambiguation, annotation })
    }
}

impl ResourceOld for Series {
    open spec fn name_spec() -> Seq<char> {
        "series"@
    }

    open spec fn incl_spec() -> Seq<char> {
        "annotation+aliases+work-rels"@
    }

    fn name() -> (n: &'static str) {
        "series"
    }

    fn incl() -> (i: &'static str) {
        "annotation+aliases+work-rels"
    }
}

} // verus!
