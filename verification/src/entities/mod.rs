//! The records of the database and the value types they are made of.

pub mod date;
pub mod helper;
pub mod alias;
pub mod area;
pub mod artist;
pub mod event;
pub mod label;
pub mod lang;
pub mod mbid;
pub mod on_request;
pub mod place;
pub mod recording;
pub mod refs;
pub mod release;
pub mod release_group;
pub mod series;

pub use self::date::{FullDate, ParseDateError, PartialDate};
pub use self::mbid::{Mbid, ParseMbidError};
pub use self::on_request::OnRequest;

use std::marker::PhantomData;
use vstd::prelude::*;
use crate::client::{include_list, lookup_url, Request};
use crate::xml::FromXml;

verus! {

/// Represents an instance of an entity from the database.
///
/// Along with the data of the entity this can also optionally hold
/// relationship data from the database.
pub struct Entity<E> {
    /// The actual data of the entity.
    pub data: E,
    /// The relationship data of the entity.
    pub rels: Vec<Relationship<E>>,
}

/// A relationship of an entity to another one.
pub struct Relationship<E> {
    _e: PhantomData<E>,
}

/// A record that is fetched by its identifier, with options that switch
/// parts of it on and off.
pub trait Resource: Sized {
    /// The switches a caller sets.
    type Options;

    /// The fields as the server sent them.
    type Response: FromXml;

    /// Name of the resource in the paths of the service, e.g. `artist`.
    spec fn name_spec() -> Seq<char>;

    /// The names of the optional parts, each with its switch, in the order
    /// in which they are listed in a request.
    spec fn toggles_spec(options: &Self::Options) -> Seq<(Seq<char>, bool)>;

    /// The response a record was made from.
    spec fn response_spec(&self) -> Self::Response;

    /// The options a record was fetched with.
    spec fn options_spec(&self) -> Self::Options;

    /// Name of the resource in the paths of the service.
    fn name() -> (n: &'static str)
        ensures
            n@ == Self::name_spec(),
    ;

    /// The request for a record with the given options: the resource name,
    /// and the names of the parts that are switched on, joined with `+`.
    fn request(options: &Self::Options) -> (r: Request)
        ensures
            r.name@ == Self::name_spec(),
            r.inc@ == include_list(Self::toggles_spec(options)),
    ;

    /// Pairs a response with the options it was fetched with.
    fn from_response(response: Self::Response, options: Self::Options) -> (record: Self)
        ensures
            record.response_spec() == response,
            record.options_spec() == options,
    ;
}

/// A record that is fetched by its identifier, always with the same parts.
pub trait ResourceOld {
    /// Name of the resource for inclusion in api paths, e.g. `artist`.
    spec fn name_spec() -> Seq<char>;

    /// Query string component of the parts to be requested by default.
    spec fn incl_spec() -> Seq<char>;

    /// Name of the resource for inclusion in api paths.
    fn name() -> (n: &'static str)
        ensures
            n@ == Self::name_spec(),
    ;

    /// Query string component of the parts to be requested by default.
    fn incl() -> (i: &'static str)
        ensures
            i@ == Self::incl_spec(),
    ;
}

/// Returns the url where one can get a resource in the valid format for
/// parsing from.
pub fn get_url<R: ResourceOld>(mbid: &Mbid) -> (url: String)
    ensures
        url@ == lookup_url(R::name_spec(), *mbid, R::incl_spec()),
{
    let request = Request { name: String::from_str(R::name()), inc: String::from_str(R::incl()) };
    request.get_by_mbid_url(mbid)
}

} // verus!
pub use self::alias::{Alias, AliasType};
pub use self::area::{Area, AreaType};
pub use self::artist::{Artist, ArtistOptions, ArtistType, Gender};
pub use self::event::{Event, EventType};
pub use self::label::{Label, LabelOptions, LabelType};
pub use self::lang::Language;
pub use self::place::{Coordinates, Place, PlaceType};
pub use self::recording::Recording;
pub use self::refs::{AreaRef, ArtistRef, LabelRef, RecordingRef, ReleaseRef};
pub use self::release::{
    LabelInfo, Release, ReleaseComponent, ReleaseMedium, ReleaseOptions, ReleaseRelations,
    ReleaseStatus, ReleaseTrack,
};
pub use self::release_group::{
    ReleaseGroup, ReleaseGroupOptions, ReleaseGroupPrimaryType, ReleaseGroupSecondaryType,
    ReleaseGroupType,
};
pub use self::series::{Series, SeriesType};
