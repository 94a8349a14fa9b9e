//! Search entities.
//!
//! Don't confuse these with the entities in the top level module `entities`.
//! They are only contained in search results and provide a means to retrieve
//! the full entity with a further API request.

use vstd::prelude::*;
use crate::entities::refs::{ArtistRef, ArtistRefModel, ReleaseRef, ReleaseRefModel};
use crate::entities::{Mbid, ReleaseStatus, Resource};
use crate::error::{Error, ErrorModel};
use crate::xml::{child_spec, list_spec, Document, DocumentModel, FromXml};

verus! {

/// An entity as it appears in search results.
pub trait SearchEntity: FromXml {
    /// The full entity that is referred by this search entity.
    type FullEntity: Resource;
}

/// A release as it appears in search results.
#[derive(Clone, Debug)]
pub struct Release {
    pub mbid: Mbid,
    pub title: String,
    pub status: ReleaseStatus,
    pub language: Option<String>,
    pub script: Option<String>,
    pub artists: Vec<ArtistRef>,
}

/// A release group as it appears in search results.
#[derive(Clone, Debug)]
pub struct ReleaseGroup {
    pub mbid: Mbid,
    pub title: String,
    pub artists: Vec<ArtistRef>,
    pub releases: Vec<ReleaseRef>,
}

/// Mathematical content of a [`ReleaseGroup`].
pub struct ReleaseGroupModel {
    pub mbid: Mbid,
    pub title: Seq<char>,
    pub artists: Seq<ArtistRefModel>,
    pub releases: Seq<ReleaseRefModel>,
}

impl DeepView for ReleaseGroup {
    type V = ReleaseGroupModel;

    open spec fn deep_view(&self) -> ReleaseGroupModel {
        ReleaseGroupModel {
            mbid: self.mbid.deep_view(),
            title: self.title.deep_view(),
            artists: self.artists.deep_view(),
            releases: self.releases.deep_view(),
        }
    }
}

impl FromXml for ReleaseGroup {
    /// The fields are read in the order given here; the first that fails
    /// decides the failure.
    open spec fn from_xml_spec(doc: DocumentModel, nodes: Seq<char>) -> Result<
        ReleaseGroupModel,
        ErrorModel,
    > {
        let mbid = Mbid::from_xml_spec(doc, child_spec(nodes, ".//@id"@));
        let title = String::from_xml_spec(doc, child_spec(nodes, ".//mb:title"@));
        let artists = list_spec::<ArtistRef>(
            doc,
            child_spec(nodes, ".//mb:artist-credit/mb:name-credit/mb:artist"@),
        );
        let releases = list_spec::<ReleaseRef>(
            doc,
            child_spec(nodes, ".//mb:release-list/mb:release"@),
        );
        if mbid is Err {
            Err(mbid->Err_0)
        } else if title is Err {
            Err(title->Err_0)
        } else if artists is Err {
            Err(artists->Err_0)
        } else if releases is Err {
            Err(releases->Err_0)
        } else {
            Ok(
                ReleaseGroupModel {
                    mbid: mbid->Ok_0,
                    title: title->Ok_0,
                    artists: artists->Ok_0,
                    releases: releases->Ok_0,
                },
            )
        }
    }

    fn from_xml(doc: &Document, nodes: &str) -> (r: Result<ReleaseGroup, Error>) {
        let mbid: Mbid = doc.read(nodes, ".//@id")?;
        let title: String = doc.read(nodes, ".//mb:title")?;
        let artists: Vec<ArtistRef> = doc.read_list(
            nodes,
            ".//mb:artist-credit/mb:name-credit/mb:artist",
        )?;
        let releases: Vec<ReleaseRef> = doc.read_list(nodes, ".//mb:release-list/mb:release")?;
        Ok(ReleaseGroup { mbid, title, artists, releases })
    }
}

impl SearchEntity for ReleaseGroup {
    type FullEntity = crate::entities::ReleaseGroup;
}

} // verus!
