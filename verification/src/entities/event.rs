//! Events.

use vstd::prelude::*;
use crate::entities::date::PartialDate;
use crate::entities::helper::{optional_keyword_spec, read_optional_keyword, Keyword};
use crate::entities::mbid::Mbid;
use crate::entities::ResourceOld;
use crate::error::{Error, ErrorModel};
use crate::xml::{
    child_spec, list_spec, required, required_spec, Document, DocumentModel, FromXml,
    FromXmlOptional,
};

verus! {

/// Describes what type of event this is exactly.
#[derive(Clone, Copy, Debug, PartialEq, Eq, Structural)]
pub enum EventType {
    Concert,
    Festival,
    LaunchEvent,
    ConventionExpo,
    MasterclassClinic,
}

impl DeepView for EventType {
    type V = EventType;

    open spec fn deep_view(&self) -> EventType {
        *self
    }
}

impl EventType {
    /// The word the database writes for this value.
    pub open spec fn word_spec(self) -> Seq<char> {
        match self {
            EventType::Concert => "Concert"@,
            EventType::Festival => "Festival"@,
            EventType::LaunchEvent => "Launch event"@,
            EventType::ConventionExpo => "Convention/Expo"@,
            EventType::MasterclassClinic => "Masterclass/Clinic"@,
        }
    }

    /// The word the database writes for this value.
    pub fn as_str(&self) -> (s: &'static str)
        ensures
            s@ == self.word_spec(),
    {
        match self {
            EventType::Concert => "Concert",
            EventType::Festival => "Festival",
            EventType::LaunchEvent => "Launch event",
            EventType::ConventionExpo => "Convention/Expo",
            EventType::MasterclassClinic => "Masterclass/Clinic",
        }
    }

    /// The word the database writes for this value.
    pub fn to_string(&self) -> (s: String)
        ensures
            s@ == self.word_spec(),
    {
        String::from_str(self.as_str())
    }
}

impl Keyword for EventType {
    open spec fn kind_name() -> Seq<char> {
        "EventType"@
    }

    open spec fn parse_spec(word: Seq<char>) -> Option<EventType> {
        if word == "Concert"@ {
            Some(EventType::Concert)
        } else if word == "Festival"@ {
            Some(EventType::Festival)
        } else if word == "Launch event"@ {
            Some(EventType::LaunchEvent)
        } else if word == "Convention/Expo"@ {
            Some(EventType::ConventionExpo)
        } else if word == "Masterclass/Clinic"@ {
            Some(EventType::MasterclassClinic)
        } else {
            None
        }
    }

    fn name() -> (n: &'static str) {
        "EventType"
    }

    fn from_word(word: &str) -> (r: Option<EventType>) {
        if word.eq("Concert") {
            Some(EventType::Concert)
        } else if word.eq("Festival") {
            Some(EventType::Festival)
        } else if word.eq("Launch event") {
            Some(EventType::LaunchEvent)
        } else if word.eq("Convention/Expo") {
            Some(EventType::ConventionExpo)
        } else if word.eq("Masterclass/Clinic") {
            Some(EventType::MasterclassClinic)
        } else {
            None
        }
    }
}

impl FromXmlOptional for EventType {
    open spec fn from_xml_optional_spec(doc: DocumentModel, nodes: Seq<char>) -> Result<
        Option<EventType>,
        ErrorModel,
    > {
        optional_keyword_spec::<EventType>(doc, nodes)
    }

    fn from_xml_optional(doc: &Document, nodes: &str) -> (r: Result<
        Option<EventType>,
        Error,
    >) {
        read_optional_keyword::<EventType>(doc, nodes)
    }
}

impl FromXml for EventType {
    open spec fn from_xml_spec(doc: DocumentModel, nodes: Seq<char>) -> Result<
        EventType,
        ErrorModel,
    > {
        required_spec::<EventType>(doc, nodes)
    }

    fn from_xml(doc: &Document, nodes: &str) -> (r: Result<EventType, Error>) {
        required::<EventType>(doc, nodes)
    }
}

/// An organized event people can attend, these are generally live performances.
#[derive(Clone, Debug, PartialEq, Eq)]
pub struct Event {
    /// MBID of the entity in the MusicBrainz database.
    pub mbid: Mbid,
    /// The official name of the event or a descriptive name if the event
    /// doesn't have an official name.
    pub name: String,
    /// Aternative event names.
    pub aliases: Vec<String>,
    /// Describes what type of event this is exactly.
    pub event_type: Option<EventType>,
    /// List of songs played at the event.
    ///
    /// This is provided in an extensive text format, which is kept as it is.
    pub setlist: Option<String>,
    /// Begin date of the event.
    pub begin_date: PartialDate,
    /// End date of the event.
    pub end_date: Option<PartialDate>,
    /// Additional disambiguation if there are multiple `Event`s with the same
    /// name.
    pub disambiguation: Option<String>,
    /// Any additional free form annotation for this `Event`.
    pub annotation: Option<String>,
}

/// Mathematical content of an [`Event`].
pub struct EventModel {
    pub mbid: Mbid,
    pub name: Seq<char>,
    pub aliases: Seq<Seq<char>>,
    pub event_type: Option<EventType>,
    pub setlist: Option<Seq<char>>,
    pub begin_date: PartialDate,
    pub end_date: Option<PartialDate>,
    pub disambiguation: Option<Seq<char>>,
    pub annotation: Option<Seq<char>>,
}

impl DeepView for Event {
    type V = EventModel;

    open spec fn deep_view(&self) -> EventModel {
        EventModel {
            mbid: self.mbid.deep_view(),
            name: self.name.deep_view(),
            aliases: self.aliases.deep_view(),
            event_type: self.event_type.deep_view(),
            setlist: self.setlist.deep_view(),
            begin_date: self.begin_date.deep_view(),
            end_date: self.end_date.deep_view(),
            disambiguation: self.disambiguation.deep_view(),
            annotation: self.annotation.deep_view(),
        }
    }
}

impl FromXml for Event {
    /// The fields are read in the order given here; the first that fails
    /// decides the failure.
    open spec fn from_xml_spec(doc: DocumentModel, nodes: Seq<char>) -> Result<
        EventModel,
        ErrorModel,
    > {
        let mbid = Mbid::from_xml_spec(doc, child_spec(nodes, ".//mb:event/@id"@));
        let name = String::from_xml_spec(doc, child_spec(nodes, ".//mb:event/mb:name"@));
        let aliases = list_spec::<String>(
            doc,
            child_spec(nodes, ".//mb:event/mb:alias-list/mb:alias/text()"@),
        );
        let event_type = EventType::from_xml_optional_spec(
            doc,
            child_spec(nodes, ".//mb:event/@type"@),
        );
        let setlist = String::from_xml_optional_spec(
            doc,
            child_spec(nodes, ".//mb:event/mb:setlist"@),
        );
        let begin_date = PartialDate::from_xml_spec(
            doc,
            child_spec(nodes, ".//mb:event/mb:life-span/mb:begin"@),
        );
        let end_date = PartialDate::from_xml_optional_spec(
            doc,
            child_spec(nodes, ".//mb:event/mb:life-span/mb:end"@),
        );
        let disambiguation = String::from_xml_optional_spec(
            doc,
            child_spec(nodes, ".//mb:event/mb:disambiguation"@),
        );
        let annotation = String::from_xml_optional_spec(
            doc,
            child_spec(nodes, ".//mb:event/mb:annotation/mb:text/text()"@),
        );
        if mbid is Err {
            Err(mbid->Err_0)
        } else if name is Err {
            Err(name->Err_0)
        } else if aliases is Err {
            Err(aliases->Err_0)
        } else if event_type is Err {
            Err(event_type->Err_0)
        } else if setlist is Err {
            Err(setlist->Err_0)
        } else if begin_date is Err {
            Err(begin_date->Err_0)
        } else if end_date is Err {
            Err(end_date->Err_0)
        } else if disambiguation is Err {
            Err(disambiguation->Err_0)
        } else if annotation is Err {
            Err(annotation->Err_0)
        } else {
            Ok(
                EventModel {
                    mbid: mbid->Ok_0,
                    name: name->Ok_0,
                    aliases: aliases->Ok_0,
                    event_type: event_type->Ok_0,
                    setlist: setlist->Ok_0,
                    begin_date: begin_date->Ok_0,
                    end_date: end_date->Ok_0,
                    disambiguation: disambiguation->Ok_0,
                    annotation: annotation->Ok_0,
                },
            )
        }
    }

    fn from_xml(doc: &Document, nodes: &str) -> (r: Result<Event, Error>) {
        let mbid: Mbid = doc.read(nodes, ".//mb:event/@id")?;
        let name: String = doc.read(nodes, ".//mb:event/mb:name")?;
        let aliases: Vec<String> = doc.read_list(
            nodes,
            ".//mb:event/mb:alias-list/mb:alias/text()",
        )?;
        let event_type: Option<EventType> = doc.read_optional(nodes, ".//mb:event/@type")?;
        let setlist: Option<String> = doc.read_optional(nodes, ".//mb:event/mb:setlist")?;
        let begin_date: PartialDate = doc.read(nodes, ".//mb:event/mb:life-span/mb:begin")?;
        let end_date: Option<PartialDate> = doc.read_optional(
            nodes,
            ".//mb:event/mb:life-span/mb:end",
        )?;
        let disambiguation: Option<String> = doc.read_optional(
            nodes,
            ".//mb:event/mb:disambiguation",
        )?;
        let annotation: Option<String> = doc.read_optional(
            nodes,
            ".//mb:event/mb:annotation/mb:text/text()",
        )?;
        Ok(
            Event {
                mbid,
                name,
                aliases,
                event_type,
                setlist,
                begin_date,
                end_date,
                disambiguation,
                annotation,
            },
        )
    }
}

impl ResourceOld for Event {
    open spec fn name_spec() -> Seq<char> {
        "event"@
    }

    open spec fn incl_spec() -> Seq<char> {
        "aliases+annotation"@
    }

    fn name() -> (n: &'static str) {
        "event"
    }

    fn incl() -> (i: &'static str) {
        "aliases+annotation"
    }
}

} // verus!
