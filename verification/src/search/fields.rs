//! The fields that can be used in queries.
//!
//! A field is a value together with the name under which the search server
//! indexes it. Which fields a search accepts depends on the entity that is
//! searched for; the trait [`ReleaseGroupSearchField`] marks those of
//! release groups.
//!
//! Link to [MusicBrainz
//! documentation](https://musicbrainz.org/doc/Indexed_Search_Syntax).

use vstd::prelude::*;
use crate::entities::{Mbid, ReleaseGroupPrimaryType, Resource};
use crate::error::{Error, ErrorKind, ErrorModel};
use crate::text::{decimal_chars, decimal_digits, string_of};

verus! {

/// A value that can be searched for.
pub trait SearchField {
    /// The text of the value, as it is written into a query.
    spec fn value_spec(&self) -> Seq<char>;

    /// The text of the value.
    fn value(&self) -> (v: String)
        ensures
            v@ == self.value_spec(),
    ;
}

/// Acceptable fields searching for instances of the entity.
pub trait ReleaseGroupSearchField: SearchField {
    /// The name under which the server indexes the field.
    spec fn name_spec() -> Seq<char>;

    /// The name under which the server indexes the field.
    fn name() -> (n: &'static str)
        ensures
            n@ == Self::name_spec(),
    ;
}

/// The failure to use a field with an entity that does not have it.
pub open spec fn wrong_search_field_spec(entity: Seq<char>, field: Seq<char>) -> ErrorModel {
    ErrorModel {
        message: "Requested field "@ + field + " of entity "@ + entity
            + ", but this is not provided."@,
        kind: ErrorKind::Internal,
    }
}

/// The failure to use a field with an entity that does not have it.
pub fn wrong_search_field(entity: &str, field: &str) -> (e: Error)
    ensures
        e@ == wrong_search_field_spec(entity@, field@),
{
    let mut message = String::from_str("Requested field ");
    message.append(field);
    message.append(" of entity ");
    message.append(entity);
    message.append(", but this is not provided.");
    Error::new(message.as_str(), ErrorKind::Internal)
}

/// Alias of the searched entity's name.
#[derive(Clone, Debug)]
pub struct Alias(pub String);

impl SearchField for Alias {
    open spec fn value_spec(&self) -> Seq<char> {
        self.0@
    }

    fn value(&self) -> (v: String) {
        self.0.clone()
    }
}

impl Alias {
    /// The name of the field for the given entity. Areas and artists have
    /// aliases that can be searched for.
    pub open spec fn name_for_spec(entity: Seq<char>) -> Result<Seq<char>, ErrorModel> {
        if entity == "area"@ || entity == "artist"@ {
            Ok("alias"@)
        } else {
            Err(wrong_search_field_spec(entity, "Alias"@))
        }
    }

    /// The name of the field for the entity `R`.
    pub fn name<R: Resource>(&self) -> (r: Result<&'static str, Error>)
        ensures
            match Self::name_for_spec(R::name_spec()) {
                Ok(n) => r is Ok && r->Ok_0@ == n,
                Err(e) => r is Err && r->Err_0@ == e,
            },
    {
        let entity = R::name();
        if entity.eq("area") || entity.eq("artist") {
            Ok("alias")
        } else {
            Err(wrong_search_field(entity, "Alias"))
        }
    }

    /// The field as it is written into a query for the entity `R`: name,
    /// colon, value.
    pub fn to_string<R: Resource>(&self) -> (r: Result<String, Error>)
        ensures
            match Self::name_for_spec(R::name_spec()) {
                Ok(n) => r is Ok && r->Ok_0@ == n + seq![':'] + self.0@,
                Err(e) => r is Err && r->Err_0@ == e,
            },
    {
        let name = self.name::<R>()?;
        let mut s = String::from_str(name);
        s.push(':');
        s.append(self.0.as_str());
        Ok(s)
    }
}

/// The artist as credited on the release group.
#[derive(Clone, Debug)]
pub struct ArtistCredit(pub String);

impl SearchField for ArtistCredit {
    open spec fn value_spec(&self) -> Seq<char> {
        self.0@
    }

    fn value(&self) -> (v: String) {
        self.0.clone()
    }
}

/// The MBID of the `Artist`.
#[derive(Clone, Copy, Debug)]
pub struct ArtistMbid(pub Mbid);

impl SearchField for ArtistMbid {
    open spec fn value_spec(&self) -> Seq<char> {
        self.0.text_spec()
    }

    fn value(&self) -> (v: String) {
        self.0.to_string()
    }
}

/// The name of the `Artist` without accented characters.
#[derive(Clone, Debug)]
pub struct ArtistName(pub String);

impl SearchField for ArtistName {
    open spec fn value_spec(&self) -> Seq<char> {
        self.0@
    }

    fn value(&self) -> (v: String) {
        self.0.clone()
    }
}

/// Disambiguation comment of the searched entity.
#[derive(Clone, Debug)]
pub struct Comment(pub String);

impl SearchField for Comment {
    open spec fn value_spec(&self) -> Seq<char> {
        self.0@
    }

    fn value(&self) -> (v: String) {
        self.0.clone()
    }
}

/// The name an artist is credited with.
#[derive(Clone, Debug)]
pub struct CreditName(pub String);

impl SearchField for CreditName {
    open spec fn value_spec(&self) -> Seq<char> {
        self.0@
    }

    fn value(&self) -> (v: String) {
        self.0.clone()
    }
}

/// The primary type of the release group.
#[derive(Clone, Copy, Debug)]
pub struct PrimaryType(pub ReleaseGroupPrimaryType);

impl SearchField for PrimaryType {
    open spec fn value_spec(&self) -> Seq<char> {
        self.0.word_spec()
    }

    fn value(&self) -> (v: String) {
        self.0.to_string()
    }
}

/// The MBID of the release group.
#[derive(Clone, Copy, Debug)]
pub struct ReleaseGroupId(pub Mbid);

impl SearchField for ReleaseGroupId {
    open spec fn value_spec(&self) -> Seq<char> {
        self.0.text_spec()
    }

    fn value(&self) -> (v: String) {
        self.0.to_string()
    }
}

/// The name of the release group, without special accent characters.
#[derive(Clone, Debug)]
pub struct ReleaseGroupName(pub String);

impl SearchField for ReleaseGroupName {
    open spec fn value_spec(&self) -> Seq<char> {
        self.0@
    }

    fn value(&self) -> (v: String) {
        self.0.clone()
    }
}

/// The name of the release group, including special accent characters.
#[derive(Clone, Debug)]
pub struct ReleaseGroupNameAccent(pub String);

impl SearchField for ReleaseGroupNameAccent {
    open spec fn value_spec(&self) -> Seq<char> {
        self.0@
    }

    fn value(&self) -> (v: String) {
        self.0.clone()
    }
}

/// The MBID of a release in the release group.
#[derive(Clone, Copy, Debug)]
pub struct ReleaseId(pub Mbid);

impl SearchField for ReleaseId {
    open spec fn value_spec(&self) -> Seq<char> {
        self.0.text_spec()
    }

    fn value(&self) -> (v: String) {
        self.0.to_string()
    }
}

/// The name of the `Release`, without special accent characters.
#[derive(Clone, Debug)]
pub struct ReleaseName(pub String);

impl SearchField for ReleaseName {
    open spec fn value_spec(&self) -> Seq<char> {
        self.0@
    }

    fn value(&self) -> (v: String) {
        self.0.clone()
    }
}

/// The number of releases in the release group.
#[derive(Clone, Copy, Debug)]
pub struct ReleaseNumber(pub u16);

impl SearchField for ReleaseNumber {
    open spec fn value_spec(&self) -> Seq<char> {
        decimal_digits(self.0 as nat)
    }

    fn value(&self) -> (v: String) {
        string_of(&decimal_chars(self.0 as u64))
    }
}

/// The status of a release in the release group.
#[derive(Clone, Copy, Debug)]
pub struct ReleaseStatus(pub crate::entities::ReleaseStatus);

impl SearchField for ReleaseStatus {
    open spec fn value_spec(&self) -> Seq<char> {
        self.0.word_spec()
    }

    fn value(&self) -> (v: String) {
        self.0.to_string()
    }
}

/// A secondary type of the release group.
#[derive(Clone, Debug)]
pub struct SecondaryType(pub String);

impl SearchField for SecondaryType {
    open spec fn value_spec(&self) -> Seq<char> {
        self.0@
    }

    fn value(&self) -> (v: String) {
        self.0.clone()
    }
}

/// A tag attached to the searched entity.
#[derive(Clone, Debug)]
pub struct Tag(pub String);

impl SearchField for Tag {
    open spec fn value_spec(&self) -> Seq<char> {
        self.0@
    }

    fn value(&self) -> (v: String) {
        self.0.clone()
    }
}

impl ReleaseGroupSearchField for ArtistMbid {
    open spec fn name_spec() -> Seq<char> {
        "arid"@
    }

    fn name() -> (n: &'static str) {
        "arid"
    }
}

impl ReleaseGroupSearchField for ArtistCredit {
    open spec fn name_spec() -> Seq<char> {
        "artist"@
    }

    fn name() -> (n: &'static str) {
        "artist"
    }
}

impl ReleaseGroupSearchField for ArtistName {
    open spec fn name_spec() -> Seq<char> {
        "artistname"@
    }

    fn name() -> (n: &'static str) {
        "artistname"
    }
}

impl ReleaseGroupSearchField for Comment {
    open spec fn name_spec() -> Seq<char> {
        "comment"@
    }

    fn name() -> (n: &'static str) {
        "comment"
    }
}

impl ReleaseGroupSearchField for CreditName {
    open spec fn name_spec() -> Seq<char> {
        "creditname"@
    }

    fn name() -> (n: &'static str) {
        "creditname"
    }
}

impl ReleaseGroupSearchField for PrimaryType {
    open spec fn name_spec() -> Seq<char> {
        "primarytype"@
    }

    fn name() -> (n: &'static str) {
        "primarytype"
    }
}

impl ReleaseGroupSearchField for ReleaseId {
    open spec fn name_spec() -> Seq<char> {
        "reid"@
    }

    fn name() -> (n: &'static str) {
        "reid"
    }
}

impl ReleaseGroupSearchField for ReleaseName {
    open spec fn name_spec() -> Seq<char> {
        "release"@
    }

    fn name() -> (n: &'static str) {
        "release"
    }
}

impl ReleaseGroupSearchField for ReleaseGroupName {
    open spec fn name_spec() -> Seq<char> {
        "releasegroup"@
    }

    fn name() -> (n: &'static str) {
        "releasegroup"
    }
}

impl ReleaseGroupSearchField for ReleaseGroupNameAccent {
    open spec fn name_spec() -> Seq<char> {
        "releasegroupaccent"@
    }

    fn name() -> (n: &'static str) {
        "releasegroupaccent"
    }
}

impl ReleaseGroupSearchField for ReleaseNumber {
    open spec fn name_spec() -> Seq<char> {
        "releases"@
    }

    fn name() -> (n: &'static str) {
        "releases"
    }
}

impl ReleaseGroupSearchField for ReleaseGroupId {
    open spec fn name_spec() -> Seq<char> {
        "rgid"@
    }

    fn name() -> (n: &'static str) {
        "rgid"
    }
}

impl ReleaseGroupSearchField for SecondaryType {
    open spec fn name_spec() -> Seq<char> {
        "secondarytype"@
    }

    fn name() -> (n: &'static str) {
        "secondarytype"
    }
}

impl ReleaseGroupSearchField for ReleaseStatus {
    open spec fn name_spec() -> Seq<char> {
        "status"@
    }

    fn name() -> (n: &'static str) {
        "status"
    }
}

impl ReleaseGroupSearchField for Tag {
    open spec fn name_spec() -> Seq<char> {
        "tag"@
    }

    fn name() -> (n: &'static str) {
        "tag"
    }
}

} // verus!
