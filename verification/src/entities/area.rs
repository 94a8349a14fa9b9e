//! Areas.

use vstd::prelude::*;
use crate::client::{Includes, Request};
use crate::entities::helper::{keyword_spec, read_keyword, Keyword};
use crate::entities::mbid::Mbid;
use crate::entities::on_request::as_ref_spec;
use crate::entities::Resource;
use crate::error::{Error, ErrorModel};
use crate::xml::{child_spec, Document, DocumentModel, FromXml, FromXmlOptional};

verus! {

/// Specifies what a specific `Area` instance actually is.
#[derive(Clone, Copy, Debug, PartialEq, Eq, Structural)]
pub enum AreaType {
    /// Areas included (or previously included) in ISO 3166-1.
    Country,
    /// Main administrative divisions of a country.
    Subdivision,
    /// Smaller administrative divisions of a country, which are not one of the
    /// main administrative divisions but are also not municipalities.
    County,
    /// Small administrative divisions. Urban municipalities often contain only
    /// a single city and a few surrounding villages, while rural municipalities
    /// often group several villages together.
    Municipality,
    /// Settlements of any size, including towns and villages.
    City,
    /// Used for a division of a large city.
    District,
    /// Islands and atolls which don't form subdivisions of their own.
    Island,
}

impl DeepView for AreaType {
    type V = AreaType;

    open spec fn deep_view(&self) -> AreaType {
        *self
    }
}

impl AreaType {
    /// The word the database writes for this value.
    pub open spec fn word_spec(self) -> Seq<char> {
        match self {
            AreaType::Country => "Country"@,
            AreaType::Subdivision => "Subdivision"@,
            AreaType::County => "County"@,
            AreaType::Municipality => "Municipality"@,
            AreaType::City => "City"@,
            AreaType::District => "District"@,
            AreaType::Island => "Island"@,
        }
    }

    /// The word the database writes for this value.
    pub fn as_str(&self) -> (s: &'static str)
        ensures
            s@ == self.word_spec(),
    {
        match self {
            AreaType::Country => "Country",
            AreaType::Subdivision => "Subdivision",
            AreaType::County => "County",
            AreaType::Municipality => "Municipality",
            AreaType::City => "City",
            AreaType::District => "District",
            AreaType::Island => "Island",
        }
    }

    /// The word the database writes for this value.
    pub fn to_string(&self) -> (s: String)
        ensures
            s@ == self.word_spec(),
    {
        String::from_str(self.as_str())
    }
}

impl Keyword for AreaType {
    open spec fn kind_name() -> Seq<char> {
        "AreaType"@
    }

    open spec fn parse_spec(word: Seq<char>) -> Option<AreaType> {
        if word == "Country"@ {
            Some(AreaType::Country)
        } else if word == "Subdivision"@ {
            Some(AreaType::Subdivision)
        } else if word == "County"@ {
            Some(AreaType::County)
        } else if word == "Municipality"@ {
            Some(AreaType::Municipality)
        } else if word == "City"@ {
            Some(AreaType::City)
        } else if word == "District"@ {
            Some(AreaType::District)
        } else if word == "Island"@ {
            Some(AreaType::Island)
        } else {
            None
        }
    }

    fn name() -> (n: &'static str) {
        "AreaType"
    }

    fn from_word(word: &str) -> (r: Option<AreaType>) {
        if word.eq("Country") {
            Some(AreaType::Country)
        } else if word.eq("Subdivision") {
            Some(AreaType::Subdivision)
        } else if word.eq("County") {
            Some(AreaType::County)
        } else if word.eq("Municipality") {
            Some(AreaType::Municipality)
        } else if word.eq("City") {
            Some(AreaType::City)
        } else if word.eq("District") {
            Some(AreaType::District)
        } else if word.eq("Island") {
            Some(AreaType::Island)
        } else {
            None
        }
    }
}

impl FromXml for AreaType {
    open spec fn from_xml_spec(doc: DocumentModel, nodes: Seq<char>) -> Result<
        AreaType,
        ErrorModel,
    > {
        keyword_spec::<AreaType>(doc, nodes)
    }

    fn from_xml(doc: &Document, nodes: &str) -> (r: Result<AreaType, Error>) {
        read_keyword::<AreaType>(doc, nodes)
    }
}

/// The fields of an area as the server sends them.
#[derive(Clone, Debug, PartialEq, Eq)]
pub struct AreaResponse {
    /// MBID of the entity in the MusicBrainz database.
    pub mbid: Mbid,
    pub name: String,
    pub sort_name: String,
    pub area_type: AreaType,
    pub iso_3166: Option<String>,
}

/// Mathematical content of an [`AreaResponse`].
pub struct AreaResponseModel {
    pub mbid: Mbid,
    pub name: Seq<char>,
    pub sort_name: Seq<char>,
    pub area_type: AreaType,
    pub iso_3166: Option<Seq<char>>,
}

impl DeepView for AreaResponse {
    type V = AreaResponseModel;

    open spec fn deep_view(&self) -> AreaResponseModel {
        AreaResponseModel {
            mbid: self.mbid.deep_view(),
            name: self.name.deep_view(),
            sort_name: self.sort_name.deep_view(),
            area_type: self.area_type.deep_view(),
            iso_3166: self.iso_3166.deep_view(),
        }
    }
}

impl FromXml for AreaResponse {
    /// The fields are read in the order given here; the first that fails
    /// decides the failure.
    open spec fn from_xml_spec(doc: DocumentModel, nodes: Seq<char>) -> Result<
        AreaResponseModel,
        ErrorModel,
    > {
        let mbid = Mbid::from_xml_spec(doc, child_spec(nodes, ".//mb:area/@id"@));
        let name = String::from_xml_spec(doc, child_spec(nodes, ".//mb:area/mb:name/text()"@));
        let sort_name = String::from_xml_spec(
            doc,
            child_spec(nodes, ".//mb:area/mb:sort-name/text()"@),
        );
        let area_type = AreaType::from_xml_spec(doc, child_spec(nodes, ".//mb:area/@type"@));
        let iso_3166 = String::from_xml_optional_spec(
            doc,
            child_spec(nodes, ".//mb:area/mb:iso-3166-1-code-list/mb:iso-3166-1-code/text()"@),
        );
        if mbid is Err {
            Err(mbid->Err_0)
        } else if name is Err {
            Err(name->Err_0)
        } else if sort_name is Err {
            Err(sort_name->Err_0)
        } else if area_type is Err {
            Err(area_type->Err_0)
        } else if iso_3166 is Err {
            Err(iso_3166->Err_0)
        } else {
            Ok(
                AreaResponseModel {
                    mbid: mbid->Ok_0,
                    name: name->Ok_0,
                    sort_name: sort_name->Ok_0,
                    area_type: area_type->Ok_0,
                    iso_3166: iso_3166->Ok_0,
                },
            )
        }
    }

    fn from_xml(doc: &Document, nodes: &str) -> (r: Result<AreaResponse, Error>) {
        let mbid: Mbid = doc.read(nodes, ".//mb:area/@id")?;
        let name: String = doc.read(nodes, ".//mb:area/mb:name/text()")?;
        let sort_name: String = doc.read(nodes, ".//mb:area/mb:sort-name/text()")?;
        let area_type: AreaType = doc.read(nodes, ".//mb:area/@type")?;
        let iso_3166: Option<String> = doc.read_optional(
            nodes,
            ".//mb:area/mb:iso-3166-1-code-list/mb:iso-3166-1-code/text()",
        )?;
        Ok(AreaResponse { mbid, name, sort_name, area_type, iso_3166 })
    }
}

/// A geographic region or settlement.
///
/// The exact type is distinguished by the `area_type` field.
/// This is one of the *core entities* of MusicBrainz.
#[derive(Clone, Debug)]
pub struct Area {
    response: AreaResponse,
}

impl Area {
    /// MBID of the entity in the MusicBrainz database.
    pub fn mbid(&self) -> (r: &Mbid)
        ensures
            *r == self.response_spec().mbid,
    {
        &self.response.mbid
    }

    /// The name of the area.
    pub fn name(&self) -> (r: &String)
        ensures
            *r == self.response_spec().name,
    {
        &self.response.name
    }

    /// Name that is supposed to be used for sorting, containing only latin
    /// characters.
    pub fn sort_name(&self) -> (r: &String)
        ensures
            *r == self.response_spec().sort_name,
    {
        &self.response.sort_name
    }

    /// Type of the area.
    pub fn area_type(&self) -> (r: AreaType)
        ensures
            r == self.response_spec().area_type,
    {
        self.response.area_type
    }

    /// ISO 3166 code, assigned to countries and subdivisions.
    pub fn iso_3166(&self) -> (r: Option<&String>)
        ensures
            r == as_ref_spec(&self.response_spec().iso_3166),
    {
        self.response.iso_3166.as_ref()
    }
}

impl Resource for Area {
    type Options = ();

    type Response = AreaResponse;

    open spec fn name_spec() -> Seq<char> {
        "area"@
    }

    open spec fn toggles_spec(options: &()) -> Seq<(Seq<char>, bool)> {
        Seq::empty()
    }

    closed spec fn response_spec(&self) -> AreaResponse {
        self.response
    }

    closed spec fn options_spec(&self) -> () {
        ()
    }

    fn name() -> (n: &'static str) {
        "area"
    }

    fn request(options: &()) -> (r: Request) {
        let mut parts = Includes::new();
        assert(parts.toggles() == Self::toggles_spec(options));
        Request { name: String::from_str("area"), inc: parts.finish() }
    }

    fn from_response(response: AreaResponse, options: ()) -> (record: Area) {
        Area { response }
    }
}

} // verus!
