//! Recordings.

use vstd::prelude::*;
use crate::entities::helper::{duration_spec, read_mb_duration};
use crate::entities::mbid::Mbid;
use crate::entities::refs::{ArtistRef, ArtistRefModel};
use crate::entities::ResourceOld;
use crate::error::{Error, ErrorModel};
use crate::xml::{child_spec, list_spec, Document, DocumentModel, FromXml, FromXmlOptional};

verus! {

/// Represents a unique audio that has been used to produce at least one
/// released track through copying or mastering.
#[derive(Clone, Debug, PartialEq, Eq)]
pub struct Recording {
    /// MBID of the entity in the MusicBrainz database.
    pub mbid: Mbid,
    /// The title of the recording.
    pub title: String,
    /// The artists that the recording is primarily credited to.
    pub artists: Vec<ArtistRef>,
    /// Approximation of the length of the recording in milliseconds,
    /// calculated from the tracks using it.
    pub duration: Option<u64>,
    /// ISRC (International Standard Recording Code) assigned to the recording.
    pub isrc_code: Option<String>,
    /// Disambiguation comment.
    pub disambiguation: Option<String>,
    /// Any additional free form annotation for this `Recording`.
    pub annotation: Option<String>,
}

/// Mathematical content of a [`Recording`].
pub struct RecordingModel {
    pub mbid: Mbid,
    pub title: Seq<char>,
    pub artists: Seq<ArtistRefModel>,
    pub duration: Option<u64>,
    pub isrc_code: Option<Seq<char>>,
    pub disambiguation: Option<Seq<char>>,
    pub annotation: Option<Seq<char>>,
}

impl DeepView for Recording {
    type V = RecordingModel;

    open spec fn deep_view(&self) -> RecordingModel {
        RecordingModel {
            mbid: self.mbid.deep_view(),
            title: self.title.deep_view(),
            artists: self.artists.deep_view(),
            duration: self.duration.deep_view(),
            isrc_code: self.isrc_code.deep_view(),
            disambiguation: self.disambiguation.deep_view(),
            annotation: self.annotation.deep_view(),
        }
    }
}

impl FromXml for Recording {
    /// The fields are read in the order given here; the first that fails
    /// decides the failure.
    open spec fn from_xml_spec(doc: DocumentModel, nodes: Seq<char>) -> Result<
        RecordingModel,
        ErrorModel,
    > {
        let mbid = Mbid::from_xml_spec(doc, child_spec(nodes, ".//mb:recording/@id"@));
        let title = String::from_xml_spec(
            doc,
            child_spec(nodes, ".//mb:recording/mb:title/text()"@),
        );
        let artists = list_spec::<ArtistRef>(
            doc,
            child_spec(nodes, ".//mb:recording/mb:artist-credit/mb:name-credit"@),
        );
        let duration = duration_spec(doc, nodes, ".//mb:recording/mb:length/text()"@);
        let isrc_code = String::from_xml_optional_spec(
            doc,
            child_spec(nodes, ".//mb:recording/mb:isrc-list/mb:isrc/@id"@),
        );
        let disambiguation = String::from_xml_optional_spec(
            doc,
            child_spec(nodes, ".//mb:recording/mb:disambiguation/text()"@),
        );
        let annotation = String::from_xml_optional_spec(
            doc,
            child_spec(nodes, ".//mb:recording/mb:annotation/text()"@),
        );
        if mbid is Err {
            Err(mbid->Err_0)
        } else if title is Err {
            Err(title->Err_0)
        } else if artists is Err {
            Err(artists->Err_0)
        } else if duration is Err {
            Err(duration->Err_0)
        } else if isrc_code is Err {
            Err(isrc_code->Err_0)
        } else if disambiguation is Err {
            Err(disambiguation->Err_0)
        } else if annotation is Err {
            Err(annotation->Err_0)
        } else {
            Ok(
                RecordingModel {
                    mbid: mbid->Ok_0,
                    title: title->Ok_0,
                    artists: artists->Ok_0,
                    duration: duration->Ok_0,
                    isrc_code: isrc_code->Ok_0,
                    disambiguation: disambiguation->Ok_0,
                    annotation: annotation->Ok_0,
                },
            )
        }
    }

    fn from_xml(doc: &Document, nodes: &str) -> (r: Result<Recording, Error>) {
        let mbid: Mbid = doc.read(nodes, ".//mb:recording/@id")?;
        let title: String = doc.read(nodes, ".//mb:recording/mb:title/text()")?;
        let artists: Vec<ArtistRef> = doc.read_list(
            nodes,
            ".//mb:recording/mb:artist-credit/mb:name-credit",
        )?;
        let duration: Option<u64> = read_mb_duration(
            doc,
            nodes,
            ".//mb:recording/mb:length/text()",
        )?;
        let isrc_code: Option<String> = doc.read_optional(
            nodes,
            ".//mb:recording/mb:isrc-list/mb:isrc/@id",
        )?;
        let disambiguation: Option<String> = doc.read_optional(
            nodes,
            ".//mb:recording/mb:disambiguation/text()",
        )?;
        let annotation: Option<String> = doc.read_optional(
            nodes,
            ".//mb:recording/mb:annotation/text()",
        )?;
        Ok(Recording { mbid, title, artists, duration, isrc_code, disambiguation, annotation })
    }
}

impl ResourceOld for Recording {
    open spec fn name_spec() -> Seq<char> {
        "recording"@
    }

    open spec fn incl_spec() -> Seq<char> {
        "artists+annotation+isrcs"@
    }

    fn name() -> (n: &'static str) {
        "recording"
    }

    fn incl() -> (i: &'static str) {
        "artists+annotation+isrcs"
    }
}

} // verus!
