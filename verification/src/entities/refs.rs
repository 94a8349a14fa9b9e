//! Reference entities holding some basic information about an entity and
//! pointing to a full entity.

use vstd::prelude::*;
use crate::entities::date::PartialDate;
use crate::entities::helper::{duration_spec, read_mb_duration};
use crate::entities::mbid::Mbid;
use crate::entities::release::ReleaseStatus;
use crate::error::{Error, ErrorModel};
use crate::xml::{
    agrees, child_spec, required, required_spec, Document, DocumentModel, FromXml, FromXmlOptional,
};

verus! {

/// A pointer to an area, with its names.
#[derive(Clone, Debug, PartialEq, Eq)]
pub struct AreaRef {
    /// MBID of the entity in the MusicBrainz database.
    pub mbid: Mbid,
    pub name: String,
    pub sort_name: String,
    pub iso_3166: Option<String>,
}

/// Mathematical content of an [`AreaRef`].
pub struct AreaRefModel {
    pub mbid: Mbid,
    pub name: Seq<char>,
    pub sort_name: Seq<char>,
    pub iso_3166: Option<Seq<char>>,
}

impl DeepView for AreaRef {
    type V = AreaRefModel;

    open spec fn deep_view(&self) -> AreaRefModel {
        AreaRefModel {
            mbid: self.mbid.deep_view(),
            name: self.name.deep_view(),
            sort_name: self.sort_name.deep_view(),
            iso_3166: self.iso_3166.deep_view(),
        }
    }
}

impl AreaRef {
    /// What the fields decode to, read in the order given here.
    pub open spec fn fields_spec(doc: DocumentModel, nodes: Seq<char>) -> Result<
        AreaRefModel,
        ErrorModel,
    > {
        let mbid = Mbid::from_xml_spec(doc, child_spec(nodes, ".//@id"@));
        let name = String::from_xml_spec(doc, child_spec(nodes, ".//mb:name/text()"@));
        let sort_name = String::from_xml_spec(doc, child_spec(nodes, ".//mb:sort-name/text()"@));
        let iso_3166 = String::from_xml_optional_spec(
            doc,
            child_spec(nodes, ".//mb:iso-3166-1-code-list/mb:iso-3166-1-code/text()"@),
        );
        if mbid is Err {
            Err(mbid->Err_0)
        } else if name is Err {
            Err(name->Err_0)
        } else if sort_name is Err {
            Err(sort_name->Err_0)
        } else if iso_3166 is Err {
            Err(iso_3166->Err_0)
        } else {
            Ok(
                AreaRefModel {
                    mbid: mbid->Ok_0,
                    name: name->Ok_0,
                    sort_name: sort_name->Ok_0,
                    iso_3166: iso_3166->Ok_0,
                },
            )
        }
    }

    fn read_fields(doc: &Document, nodes: &str) -> (r: Result<AreaRef, Error>)
        ensures
            agrees(r, Self::fields_spec(doc@, nodes@)),
    {
        let mbid: Mbid = doc.read(nodes, ".//@id")?;
        let name: String = doc.read(nodes, ".//mb:name/text()")?;
        let sort_name: String = doc.read(nodes, ".//mb:sort-name/text()")?;
        let iso_3166: Option<String> = doc.read_optional(
            nodes,
            ".//mb:iso-3166-1-code-list/mb:iso-3166-1-code/text()",
        )?;
        Ok(AreaRef { mbid, name, sort_name, iso_3166 })
    }
}

impl FromXmlOptional for AreaRef {
    /// There is no value where no node is selected.
    open spec fn from_xml_optional_spec(doc: DocumentModel, nodes: Seq<char>) -> Result<
        Option<AreaRefModel>,
        ErrorModel,
    > {
        match doc.count(nodes) {
            Err(e) => Err(e),
            Ok(count) => if count < 1 {
                Ok(None)
            } else {
                match AreaRef::fields_spec(doc, nodes) {
                    Err(e) => Err(e),
                    Ok(value) => Ok(Some(value)),
                }
            },
        }
    }

    fn from_xml_optional(doc: &Document, nodes: &str) -> (r: Result<Option<AreaRef>, Error>) {
        if doc.count(nodes)? < 1 {
            Ok(None)
        } else {
            let value = AreaRef::read_fields(doc, nodes)?;
            Ok(Some(value))
        }
    }
}

impl FromXml for AreaRef {
    open spec fn from_xml_spec(doc: DocumentModel, nodes: Seq<char>) -> Result<
        AreaRefModel,
        ErrorModel,
    > {
        required_spec::<AreaRef>(doc, nodes)
    }

    fn from_xml(doc: &Document, nodes: &str) -> (r: Result<AreaRef, Error>) {
        required::<AreaRef>(doc, nodes)
    }
}

/// A pointer to an artist, with its names.
#[derive(Clone, Debug, PartialEq, Eq)]
pub struct ArtistRef {
    /// MBID of the entity in the MusicBrainz database.
    pub mbid: Mbid,
    pub name: String,
    pub sort_name: String,
}

/// Mathematical content of an [`ArtistRef`].
pub struct ArtistRefModel {
    pub mbid: Mbid,
    pub name: Seq<char>,
    pub sort_name: Seq<char>,
}

impl DeepView for ArtistRef {
    type V = ArtistRefModel;

    open spec fn deep_view(&self) -> ArtistRefModel {
        ArtistRefModel {
            mbid: self.mbid.deep_view(),
            name: self.name.deep_view(),
            sort_name: self.sort_name.deep_view(),
        }
    }
}

impl FromXml for ArtistRef {
    /// The fields are read in the order given here; the first that fails
    /// decides the failure.
    open spec fn from_xml_spec(doc: DocumentModel, nodes: Seq<char>) -> Result<
        ArtistRefModel,
        ErrorModel,
    > {
        let mbid = Mbid::from_xml_spec(doc, child_spec(nodes, ".//@id"@));
        let name = String::from_xml_spec(doc, child_spec(nodes, ".//mb:name/text()"@));
        let sort_name = String::from_xml_spec(doc, child_spec(nodes, ".//mb:sort-name/text()"@));
        if mbid is Err {
            Err(mbid->Err_0)
        } else if name is Err {
            Err(name->Err_0)
        } else if sort_name is Err {
            Err(sort_name->Err_0)
        } else {
            Ok(
                ArtistRefModel {
                    mbid: mbid->Ok_0,
                    name: name->Ok_0,
                    sort_name: sort_name->Ok_0,
                },
            )
        }
    }

    fn from_xml(doc: &Document, nodes: &str) -> (r: Result<ArtistRef, Error>) {
        let mbid: Mbid = doc.read(nodes, ".//@id")?;
        let name: String = doc.read(nodes, ".//mb:name/text()")?;
        let sort_name: String = doc.read(nodes, ".//mb:sort-name/text()")?;
        Ok(ArtistRef { mbid, name, sort_name })
    }
}

/// A pointer to a label, with its names.
#[derive(Clone, Debug, PartialEq, Eq)]
pub struct LabelRef {
    /// MBID of the entity in the MusicBrainz database.
    pub mbid: Mbid,
    pub name: String,
    pub sort_name: String,
    pub label_code: Option<String>,
}

/// Mathematical content of a [`LabelRef`].
pub struct LabelRefModel {
    pub mbid: Mbid,
    pub name: Seq<char>,
    pub sort_name: Seq<char>,
    pub label_code: Option<Seq<char>>,
}

impl DeepView for LabelRef {
    type V = LabelRefModel;

    open spec fn deep_view(&self) -> LabelRefModel {
        LabelRefModel {
            mbid: self.mbid.deep_view(),
            name: self.name.deep_view(),
            sort_name: self.sort_name.deep_view(),
            label_code: self.label_code.deep_view(),
        }
    }
}

impl FromXml for LabelRef {
    /// The fields are read in the order given here; the first that fails
    /// decides the failure.
    open spec fn from_xml_spec(doc: DocumentModel, nodes: Seq<char>) -> Result<
        LabelRefModel,
        ErrorModel,
    > {
        let mbid = Mbid::from_xml_spec(doc, child_spec(nodes, ".//@id"@));
        let name = String::from_xml_spec(doc, child_spec(nodes, ".//mb:name/text()"@));
        let sort_name = String::from_xml_spec(doc, child_spec(nodes, ".//mb:sort-name/text()"@));
        let label_code = String::from_xml_optional_spec(
            doc,
            child_spec(nodes, ".//mb:label-code/text()"@),
        );
        if mbid is Err {
            Err(mbid->Err_0)
        } else if name is Err {
            Err(name->Err_0)
        } else if sort_name is Err {
            Err(sort_name->Err_0)
        } else if label_code is Err {
            Err(label_code->Err_0)
        } else {
            Ok(
                LabelRefModel {
                    mbid: mbid->Ok_0,
                    name: name->Ok_0,
                    sort_name: sort_name->Ok_0,
                    label_code: label_code->Ok_0,
                },
            )
        }
    }

    fn from_xml(doc: &Document, nodes: &str) -> (r: Result<LabelRef, Error>) {
        let mbid: Mbid = doc.read(nodes, ".//@id")?;
        let name: String = doc.read(nodes, ".//mb:name/text()")?;
        let sort_name: String = doc.read(nodes, ".//mb:sort-name/text()")?;
        let label_code: Option<String> = doc.read_optional(nodes, ".//mb:label-code/text()")?;
        Ok(LabelRef { mbid, name, sort_name, label_code })
    }
}

/// A pointer to a recording, with its title.
#[derive(Clone, Debug, PartialEq, Eq)]
pub struct RecordingRef {
    /// MBID of the entity in the MusicBrainz database.
    pub mbid: Mbid,
    pub title: String,
    /// Length in milliseconds.
    pub length: Option<u64>,
}

/// Mathematical content of a [`RecordingRef`].
pub struct RecordingRefModel {
    pub mbid: Mbid,
    pub title: Seq<char>,
    pub length: Option<u64>,
}

impl DeepView for RecordingRef {
    type V = RecordingRefModel;

    open spec fn deep_view(&self) -> RecordingRefModel {
        RecordingRefModel {
            mbid: self.mbid.deep_view(),
            title: self.title.deep_view(),
            length: self.length.deep_view(),
        }
    }
}

impl FromXml for RecordingRef {
    /// The fields are read in the order given here; the first that fails
    /// decides the failure.
    open spec fn from_xml_spec(doc: DocumentModel, nodes: Seq<char>) -> Result<
        RecordingRefModel,
        ErrorModel,
    > {
        let mbid = Mbid::from_xml_spec(doc, child_spec(nodes, ".//@id"@));
        let title = String::from_xml_spec(doc, child_spec(nodes, ".//mb:title/text()"@));
        let length = duration_spec(doc, nodes, ".//mb:length/text()"@);
        if mbid is Err {
            Err(mbid->Err_0)
        } else if title is Err {
            Err(title->Err_0)
        } else if length is Err {
            Err(length->Err_0)
        } else {
            Ok(
                RecordingRefModel {
                    mbid: mbid->Ok_0,
                    title: title->Ok_0,
                    length: length->Ok_0,
                },
            )
        }
    }

    fn from_xml(doc: &Document, nodes: &str) -> (r: Result<RecordingRef, Error>) {
        let mbid: Mbid = doc.read(nodes, ".//@id")?;
        let title: String = doc.read(nodes, ".//mb:title/text()")?;
        let length: Option<u64> = read_mb_duration(doc, nodes, ".//mb:length/text()")?;
        Ok(RecordingRef { mbid, title, length })
    }
}

/// A pointer to a release, with its title.
#[derive(Clone, Debug, PartialEq, Eq)]
pub struct ReleaseRef {
    /// MBID of the entity in the MusicBrainz database.
    pub mbid: Mbid,
    pub title: String,
    pub date: Option<PartialDate>,
    pub status: Option<ReleaseStatus>,
    pub country: Option<String>,
}

/// Mathematical content of a [`ReleaseRef`].
pub struct ReleaseRefModel {
    pub mbid: Mbid,
    pub title: Seq<char>,
    pub date: Option<PartialDate>,
    pub status: Option<ReleaseStatus>,
    pub country: Option<Seq<char>>,
}

impl DeepView for ReleaseRef {
    type V = ReleaseRefModel;

    open spec fn deep_view(&self) -> ReleaseRefModel {
        ReleaseRefModel {
            mbid: self.mbid.deep_view(),
            title: self.title.deep_view(),
            date: self.date.deep_view(),
            status: self.status.deep_view(),
            country: self.country.deep_view(),
        }
    }
}

impl FromXml for ReleaseRef {
    /// The fields are read in the order given here; the first that fails
    /// decides the failure.
    open spec fn from_xml_spec(doc: DocumentModel, nodes: Seq<char>) -> Result<
        ReleaseRefModel,
        ErrorModel,
    > {
        let mbid = Mbid::from_xml_spec(doc, child_spec(nodes, ".//@id"@));
        let title = String::from_xml_spec(doc, child_spec(nodes, ".//mb:title/text()"@));
        let date = PartialDate::from_xml_optional_spec(
            doc,
            child_spec(nodes, ".//mb:date/text()"@),
        );
        let status = ReleaseStatus::from_xml_optional_spec(
            doc,
            child_spec(nodes, ".//mb:status/text()"@),
        );
        let country = String::from_xml_optional_spec(
            doc,
            child_spec(nodes, ".//mb:country/text()"@),
        );
        if mbid is Err {
            Err(mbid->Err_0)
        } else if title is Err {
            Err(title->Err_0)
        } else if date is Err {
            Err(date->Err_0)
        } else if status is Err {
            Err(status->Err_0)
        } else if country is Err {
            Err(country->Err_0)
        } else {
            Ok(
                ReleaseRefModel {
                    mbid: mbid->Ok_0,
                    title: title->Ok_0,
                    date: date->Ok_0,
                    status: status->Ok_0,
                    country: country->Ok_0,
                },
            )
        }
    }

    fn from_xml(doc: &Document, nodes: &str) -> (r: Result<ReleaseRef, Error>) {
        let mbid: Mbid = doc.read(nodes, ".//@id")?;
        let title: String = doc.read(nodes, ".//mb:title/text()")?;
        let date: Option<PartialDate> = doc.read_optional(nodes, ".//mb:date/text()")?;
        let status: Option<ReleaseStatus> = doc.read_optional(nodes, ".//mb:status/text()")?;
        let country: Option<String> = doc.read_optional(nodes, ".//mb:country/text()")?;
        Ok(ReleaseRef { mbid, title, date, status, country })
    }
}

} // verus!
