//! Places.

use vstd::prelude::*;
use crate::entities::date::PartialDate;
use crate::entities::helper::{optional_keyword_spec, read_optional_keyword, Keyword};
use crate::entities::mbid::Mbid;
use crate::entities::refs::{AreaRef, AreaRefModel};
use crate::entities::ResourceOld;
use crate::error::{Error, ErrorModel};
use crate::xml::{
    agrees, child_spec, list_spec, required, required_spec, Document, DocumentModel, FromXml,
    FromXmlOptional,
};

verus! {

/// Specifies what a `Place` instance actually is.
#[derive(Clone, Copy, Debug, PartialEq, Eq, Structural)]
pub enum PlaceType {
    Studio,
    Venue,
    Stadium,
    IndoorArena,
    ReligiousBuilding,
    Other,
}

impl DeepView for PlaceType {
    type V = PlaceType;

    open spec fn deep_view(&self) -> PlaceType {
        *self
    }
}

impl PlaceType {
    /// The word the database writes for this value.
    pub open spec fn word_spec(self) -> Seq<char> {
        match self {
            PlaceType::Studio => "Studio"@,
            PlaceType::Venue => "Venue"@,
            PlaceType::Stadium => "Stadium"@,
            PlaceType::IndoorArena => "Indoor arena"@,
            PlaceType::ReligiousBuilding => "Religious building"@,
            PlaceType::Other => "Other"@,
        }
    }

    /// The word the database writes for this value.
    pub fn as_str(&self) -> (s: &'static str)
        ensures
            s@ == self.word_spec(),
    {
        match self {
            PlaceType::Studio => "Studio",
            PlaceType::Venue => "Venue",
            PlaceType::Stadium => "Stadium",
            PlaceType::IndoorArena => "Indoor arena",
            PlaceType::ReligiousBuilding => "Religious building",
            PlaceType::Other => "Other",
        }
    }

    /// The word the database writes for this value.
    pub fn to_string(&self) -> (s: String)
        ensures
            s@ == self.word_spec(),
    {
        String::from_str(self.as_str())
    }
}

impl Keyword for PlaceType {
    open spec fn kind_name() -> Seq<char> {
        "PlaceType"@
    }

    open spec fn parse_spec(word: Seq<char>) -> Option<PlaceType> {
        if word == "Studio"@ {
            Some(PlaceType::Studio)
        } else if word == "Venue"@ {
            Some(PlaceType::Venue)
        } else if word == "Stadium"@ {
            Some(PlaceType::Stadium)
        } else if word == "Indoor arena"@ {
            Some(PlaceType::IndoorArena)
        } else if word == "Religious building"@ {
            Some(PlaceType::ReligiousBuilding)
        } else if word == "Other"@ {
            Some(PlaceType::Other)
        } else {
            None
        }
    }

    fn name() -> (n: &'static str) {
        "PlaceType"
    }

    fn from_word(word: &str) -> (r: Option<PlaceType>) {
        if word.eq("Studio") {
            Some(PlaceType::Studio)
        } else if word.eq("Venue") {
            Some(PlaceType::Venue)
        } else if word.eq("Stadium") {
            Some(PlaceType::Stadium)
        } else if word.eq("Indoor arena") {
            Some(PlaceType::IndoorArena)
        } else if word.eq("Religious building") {
            Some(PlaceType::ReligiousBuilding)
        } else if word.eq("Other") {
            Some(PlaceType::Other)
        } else {
            None
        }
    }
}

impl FromXmlOptional for PlaceType {
    open spec fn from_xml_optional_spec(doc: DocumentModel, nodes: Seq<char>) -> Result<
        Option<PlaceType>,
        ErrorModel,
    > {
        optional_keyword_spec::<PlaceType>(doc, nodes)
    }

    fn from_xml_optional(doc: &Document, nodes: &str) -> (r: Result<
        Option<PlaceType>,
        Error,
    >) {
        read_optional_keyword::<PlaceType>(doc, nodes)
    }
}

impl FromXml for PlaceType {
    open spec fn from_xml_spec(doc: DocumentModel, nodes: Seq<char>) -> Result<
        PlaceType,
        ErrorModel,
    > {
        required_spec::<PlaceType>(doc, nodes)
    }

    fn from_xml(doc: &Document, nodes: &str) -> (r: Result<PlaceType, Error>) {
        required::<PlaceType>(doc, nodes)
    }
}

/// A pair of coordinates on the surface of planet earth.
#[derive(Clone, Debug, PartialEq, Eq)]
pub struct Coordinates {
    pub latitude: String,
    pub longitude: String,
}

/// Mathematical content of a [`Coordinates`].
pub struct CoordinatesModel {
    pub latitude: Seq<char>,
    pub longitude: Seq<char>,
}

impl DeepView for Coordinates {
    type V = CoordinatesModel;

    open spec fn deep_view(&self) -> CoordinatesModel {
        CoordinatesModel {
            latitude: self.latitude.deep_view(),
            longitude: self.longitude.deep_view(),
        }
    }
}

impl Coordinates {
    /// What the fields decode to, read in the order given here.
    pub open spec fn fields_spec(doc: DocumentModel, nodes: Seq<char>) -> Result<
        CoordinatesModel,
        ErrorModel,
    > {
        let latitude = String::from_xml_spec(doc, child_spec(nodes, ".//mb:latitude/text()"@));
        let longitude = String::from_xml_spec(doc, child_spec(nodes, ".//mb:longitude/text()"@));
        if latitude is Err {
            Err(latitude->Err_0)
        } else if longitude is Err {
            Err(longitude->Err_0)
        } else {
            Ok(
                CoordinatesModel {
                    latitude: latitude->Ok_0,
                    longitude: longitude->Ok_0,
                },
            )
        }
    }

    fn read_fields(doc: &Document, nodes: &str) -> (r: Result<Coordinates, Error>)
        ensures
            agrees(r, Self::fields_spec(doc@, nodes@)),
    {
        let latitude: String = doc.read(nodes, ".//mb:latitude/text()")?;
        let longitude: String = doc.read(nodes, ".//mb:longitude/text()")?;
        Ok(Coordinates { latitude, longitude })
    }
}

impl FromXmlOptional for Coordinates {
    /// There is no value where no node is selected.
    open spec fn from_xml_optional_spec(doc: DocumentModel, nodes: Seq<char>) -> Result<
        Option<CoordinatesModel>,
        ErrorModel,
    > {
        match doc.count(nodes) {
            Err(e) => Err(e),
            Ok(count) => if count < 1 {
                Ok(None)
            } else {
                match Coordinates::fields_spec(doc, nodes) {
                    Err(e) => Err(e),
                    Ok(value) => Ok(Some(value)),
                }
            },
        }
    }

    fn from_xml_optional(doc: &Document, nodes: &str) -> (r: Result<Option<Coordinates>, Error>) {
        if doc.count(nodes)? < 1 {
            Ok(None)
        } else {
            let value = Coordinates::read_fields(doc, nodes)?;
            Ok(Some(value))
        }
    }
}

impl FromXml for Coordinates {
    open spec fn from_xml_spec(doc: DocumentModel, nodes: Seq<char>) -> Result<
        CoordinatesModel,
        ErrorModel,
    > {
        required_spec::<Coordinates>(doc, nodes)
    }

    fn from_xml(doc: &Document, nodes: &str) -> (r: Result<Coordinates, Error>) {
        required::<Coordinates>(doc, nodes)
    }
}

/// A venue, studio or other place where music is performed, recorded,
/// engineered, etc.
#[derive(Clone, Debug, PartialEq, Eq)]
pub struct Place {
    /// MBID of the entity in the MusicBrainz database.
    pub mbid: Mbid,
    /// The official name of a `Place`.
    pub name: String,
    /// The type of the `Place`.
    pub place_type: Option<PlaceType>,
    /// Address of the `Place` in the local adressing format.
    pub address: Option<String>,
    /// The exact coordinates of the place.
    pub coordinates: Option<Coordinates>,
    /// Specifies the `Area` the `Place` is located in.
    pub area: Option<AreaRef>,
    /// When the `Place` was founded.
    pub begin: Option<PartialDate>,
    /// When the `Place` closed down.
    pub end: Option<PartialDate>,
    /// Alternative versions of this `Place`'s name.
    pub aliases: Vec<String>,
    /// Additional disambiguation if there are multiple places with the same
    /// name.
    pub disambiguation: Option<String>,
    /// Any additional free form annotation for this `Place`.
    pub annotation: Option<String>,
}

/// Mathematical content of a [`Place`].
pub struct PlaceModel {
    pub mbid: Mbid,
    pub name: Seq<char>,
    pub place_type: Option<PlaceType>,
    pub address: Option<Seq<char>>,
    pub coordinates: Option<CoordinatesModel>,
    pub area: Option<AreaRefModel>,
    pub begin: Option<PartialDate>,
    pub end: Option<PartialDate>,
    pub aliases: Seq<Seq<char>>,
    pub disambiguation: Option<Seq<char>>,
    pub annotation: Option<Seq<char>>,
}

impl DeepView for Place {
    type V = PlaceModel;

    open spec fn deep_view(&self) -> PlaceModel {
        PlaceModel {
            mbid: self.mbid.deep_view(),
            name: self.name.deep_view(),
            place_type: self.place_type.deep_view(),
            address: self.address.deep_view(),
            coordinates: self.coordinates.deep_view(),
            area: self.area.deep_view(),
            begin: self.begin.deep_view(),
            end: self.end.deep_view(),
            aliases: self.aliases.deep_view(),
            disambiguation: self.disambiguation.deep_view(),
            annotation: self.annotation.deep_view(),
        }
    }
}

impl FromXml for Place {
    /// The fields are read in the order given here; the first that fails
    /// decides the failure.
    open spec fn from_xml_spec(doc: DocumentModel, nodes: Seq<char>) -> Result<
        PlaceModel,
        ErrorModel,
    > {
        let address = String::from_xml_optional_spec(
            doc,
            child_spec(nodes, ".//mb:place/mb:address/text()"@),
        );
        let aliases = list_spec::<String>(
            doc,
            child_spec(nodes, ".//mb:place/mb:aliases/text()"@),
        );
        let annotation = String::from_xml_optional_spec(
            doc,
            child_spec(nodes, ".//mb:place/mb:annotation/text()"@),
        );
        let area = AreaRef::from_xml_optional_spec(doc, child_spec(nodes, ".//mb:place/mb:area"@));
        let begin = PartialDate::from_xml_optional_spec(
            doc,
            child_spec(nodes, ".//mb:place/mb:life-span/mb:begin/text()"@),
        );
        let coordinates = Coordinates::from_xml_optional_spec(
            doc,
            child_spec(nodes, ".//mb:place/mb:coordinates"@),
        );
        let disambiguation = String::from_xml_optional_spec(
            doc,
            child_spec(nodes, ".//mb:place/mb:disambiguation/text()"@),
        );
        let end = PartialDate::from_xml_optional_spec(
            doc,
            child_spec(nodes, ".//mb:place/mb:life-span/mb:end/text()"@),
        );
        let mbid = Mbid::from_xml_spec(doc, child_spec(nodes, ".//mb:place/@id"@));
        let name = String::from_xml_spec(doc, child_spec(nodes, ".//mb:place/mb:name/text()"@));
        let place_type = PlaceType::from_xml_optional_spec(
            doc,
            child_spec(nodes, ".//mb:place/@type"@),
        );
        if address is Err {
            Err(address->Err_0)
        } else if aliases is Err {
            Err(aliases->Err_0)
        } else if annotation is Err {
            Err(annotation->Err_0)
        } else if area is Err {
            Err(area->Err_0)
        } else if begin is Err {
            Err(begin->Err_0)
        } else if coordinates is Err {
            Err(coordinates->Err_0)
        } else if disambiguation is Err {
            Err(disambiguation->Err_0)
        } else if end is Err {
            Err(end->Err_0)
        } else if mbid is Err {
            Err(mbid->Err_0)
        } else if name is Err {
            Err(name->Err_0)
        } else if place_type is Err {
            Err(place_type->Err_0)
        } else {
            Ok(
                PlaceModel {
                    address: address->Ok_0,
                    aliases: aliases->Ok_0,
                    annotation: annotation->Ok_0,
                    area: area->Ok_0,
                    begin: begin->Ok_0,
                    coordinates: coordinates->Ok_0,
                    disambiguation: disambiguation->Ok_0,
                    end: end->Ok_0,
                    mbid: mbid->Ok_0,
                    name: name->Ok_0,
                    place_type: place_type->Ok_0,
                },
            )
        }
    }

    fn from_xml(doc: &Document, nodes: &str) -> (r: Result<Place, Error>) {
        let address: Option<String> = doc.read_optional(nodes, ".//mb:place/mb:address/text()")?;
        let aliases: Vec<String> = doc.read_list(nodes, ".//mb:place/mb:aliases/text()")?;
        let annotation: Option<String> = doc.read_optional(
            nodes,
            ".//mb:place/mb:annotation/text()",
        )?;
        let area: Option<AreaRef> = doc.read_optional(nodes, ".//mb:place/mb:area")?;
        let begin: Option<PartialDate> = doc.read_optional(
            nodes,
            ".//mb:place/mb:life-span/mb:begin/text()",
        )?;
        let coordinates: Option<Coordinates> = doc.read_optional(
            nodes,
            ".//mb:place/mb:coordinates",
        )?;
        let disambiguation: Option<String> = doc.read_optional(
            nodes,
            ".//mb:place/mb:disambiguation/text()",
        )?;
        let end: Option<PartialDate> = doc.read_optional(
            nodes,
            ".//mb:place/mb:life-span/mb:end/text()",
        )?;
        let mbid: Mbid = doc.read(nodes, ".//mb:place/@id")?;
        let name: String = doc.read(nodes, ".//mb:place/mb:name/text()")?;
        let place_type: Option<PlaceType> = doc.read_optional(nodes, ".//mb:place/@type")?;
        Ok(
            Place {
                address,
                aliases,
                annotation,
                area,
                begin,
                coordinates,
                disambiguation,
                end,
                mbid,
                name,
                place_type,
            },
        )
    }
}

impl ResourceOld for Place {
    open spec fn name_spec() -> Seq<char> {
        "place"@
    }

    open spec fn incl_spec() -> Seq<char> {
        "annotation+aliases"@
    }

    fn name() -> (n: &'static str) {
        "place"
    }

    fn incl() -> (i: &'static str) {
        "annotation+aliases"
    }
}

} // verus!
