//! Labels.

use vstd::prelude::*;
use crate::client::{Includes, Request};
use crate::entities::alias::{Alias, AliasModel};
use crate::entities::date::PartialDate;
use crate::entities::helper::{optional_keyword_spec, read_optional_keyword, Keyword};
use crate::entities::mbid::Mbid;
use crate::entities::on_request::{as_ref_spec, OnRequest};
use crate::entities::Resource;
use crate::error::{Error, ErrorModel};
use crate::xml::{
    child_spec, list_spec, required, required_spec, Document, DocumentModel, FromXml,
    FromXmlOptional,
};

verus! {

/// Describes the main activity of a label.
#[derive(Clone, Copy, Debug, PartialEq, Eq, Structural)]
pub enum LabelType {
    /// The main `LabelType` in the MusicBrainz database.
    /// That is a brand (and trademark) associated with the marketing of a
    /// release.
    Imprint,
    Production,
    Publisher,
    /// Production company producing entirely new releases.
    ProductionOriginal,
    /// Known bootleg production companies, not sanctioned by the rights owners
    /// of the released work.
    ProductionBootleg,
    /// Companies specialized in catalog reissues.
    ProductionReissue,
    /// Companies mainly distributing other labels production, often in a
    /// specfic region of the world.
    Distribution,
    /// Holdings, conglomerates or other financial entities that don't mainly
    /// produce records but manage a large set of recording labels owned by them.
    Holding,
    /// An organization which collects royalties on behalf of the artists.
    RightsSociety,
}

impl DeepView for LabelType {
    type V = LabelType;

    open spec fn deep_view(&self) -> LabelType {
        *self
    }
}

impl LabelType {
    /// The word the database writes for this value.
    pub open spec fn word_spec(self) -> Seq<char> {
        match self {
            LabelType::Imprint => "Imprint"@,
            LabelType::Production => "Production"@,
            LabelType::Publisher => "Publisher"@,
            LabelType::ProductionOriginal => "Original Production"@,
            LabelType::ProductionBootleg => "Bootleg Production"@,
            LabelType::ProductionReissue => "Reissue Production"@,
            LabelType::Distribution => "Distribution"@,
            LabelType::Holding => "Holding"@,
            LabelType::RightsSociety => "RightsSociety"@,
        }
    }

    /// The word the database writes for this value.
    pub fn as_str(&self) -> (s: &'static str)
        ensures
            s@ == self.word_spec(),
    {
        match self {
            LabelType::Imprint => "Imprint",
            LabelType::Production => "Production",
            LabelType::Publisher => "Publisher",
            LabelType::ProductionOriginal => "Original Production",
            LabelType::ProductionBootleg => "Bootleg Production",
            LabelType::ProductionReissue => "Reissue Production",
            LabelType::Distribution => "Distribution",
            LabelType::Holding => "Holding",
            LabelType::RightsSociety => "RightsSociety",
        }
    }

    /// The word the database writes for this value.
    pub fn to_string(&self) -> (s: String)
        ensures
            s@ == self.word_spec(),
    {
        String::from_str(self.as_str())
    }
}

impl Keyword for LabelType {
    open spec fn kind_name() -> Seq<char> {
        "LabelType"@
    }

    open spec fn parse_spec(word: Seq<char>) -> Option<LabelType> {
        if word == "Imprint"@ {
            Some(LabelType::Imprint)
        } else if word == "Production"@ {
            Some(LabelType::Production)
        } else if word == "Publisher"@ {
            Some(LabelType::Publisher)
        } else if word == "Original Production"@ {
            Some(LabelType::ProductionOriginal)
        } else if word == "Bootleg Production"@ {
            Some(LabelType::ProductionBootleg)
        } else if word == "Reissue Production"@ {
            Some(LabelType::ProductionReissue)
        } else if word == "Distribution"@ {
            Some(LabelType::Distribution)
        } else if word == "Holding"@ {
            Some(LabelType::Holding)
        } else if word == "RightsSociety"@ {
            Some(LabelType::RightsSociety)
        } else {
            None
        }
    }

    fn name() -> (n: &'static str) {
        "LabelType"
    }

    fn from_word(word: &str) -> (r: Option<LabelType>) {
        if word.eq("Imprint") {
            Some(LabelType::Imprint)
        } else if word.eq("Production") {
            Some(LabelType::Production)
        } else if word.eq("Publisher") {
            Some(LabelType::Publisher)
        } else if word.eq("Original Production") {
            Some(LabelType::ProductionOriginal)
        } else if word.eq("Bootleg Production") {
            Some(LabelType::ProductionBootleg)
        } else if word.eq("Reissue Production") {
            Some(LabelType::ProductionReissue)
        } else if word.eq("Distribution") {
            Some(LabelType::Distribution)
        } else if word.eq("Holding") {
            Some(LabelType::Holding)
        } else if word.eq("RightsSociety") {
            Some(LabelType::RightsSociety)
        } else {
            None
        }
    }
}

impl FromXmlOptional for LabelType {
    open spec fn from_xml_optional_spec(doc: DocumentModel, nodes: Seq<char>) -> Result<
        Option<LabelType>,
        ErrorModel,
    > {
        optional_keyword_spec::<LabelType>(doc, nodes)
    }

    fn from_xml_optional(doc: &Document, nodes: &str) -> (r: Result<
        Option<LabelType>,
        Error,
    >) {
        read_optional_keyword::<LabelType>(doc, nodes)
    }
}

impl FromXml for LabelType {
    open spec fn from_xml_spec(doc: DocumentModel, nodes: Seq<char>) -> Result<
        LabelType,
        ErrorModel,
    > {
        required_spec::<LabelType>(doc, nodes)
    }

    fn from_xml(doc: &Document, nodes: &str) -> (r: Result<LabelType, Error>) {
        required::<LabelType>(doc, nodes)
    }
}

/// The optional parts of a label.
#[derive(Clone, Copy, Debug, PartialEq, Eq, Structural)]
pub struct LabelOptions {
    pub aliases: bool,
}

impl LabelOptions {
    /// Request everything from the server.
    pub fn everything() -> (options: Self)
        ensures
            options == (LabelOptions { aliases: true }),
    {
        LabelOptions { aliases: true }
    }
}

/// The fields of a label as the server sends them.
#[derive(Clone, Debug, PartialEq, Eq)]
pub struct LabelResponse {
    /// MBID of the entity in the MusicBrainz database.
    pub mbid: Mbid,
    pub name: String,
    pub sort_name: String,
    pub disambiguation: Option<String>,
    pub aliases: Vec<Alias>,
    pub label_code: Option<String>,
    pub label_type: Option<LabelType>,
    pub country: Option<String>,
    pub ipi_code: Option<String>,
    pub isni_code: Option<String>,
    pub begin_date: Option<PartialDate>,
    pub end_date: Option<PartialDate>,
}

/// Mathematical content of a [`LabelResponse`].
pub struct LabelResponseModel {
    pub mbid: Mbid,
    pub name: Seq<char>,
    pub sort_name: Seq<char>,
    pub disambiguation: Option<Seq<char>>,
    pub aliases: Seq<AliasModel>,
    pub label_code: Option<Seq<char>>,
    pub label_type: Option<LabelType>,
    pub country: Option<Seq<char>>,
    pub ipi_code: Option<Seq<char>>,
    pub isni_code: Option<Seq<char>>,
    pub begin_date: Option<PartialDate>,
    pub end_date: Option<PartialDate>,
}

impl DeepView for LabelResponse {
    type V = LabelResponseModel;

    open spec fn deep_view(&self) -> LabelResponseModel {
        LabelResponseModel {
            mbid: self.mbid.deep_view(),
            name: self.name.deep_view(),
            sort_name: self.sort_name.deep_view(),
            disambiguation: self.disambiguation.deep_view(),
            aliases: self.aliases.deep_view(),
            label_code: self.label_code.deep_view(),
            label_type: self.label_type.deep_view(),
            country: self.country.deep_view(),
            ipi_code: self.ipi_code.deep_view(),
            isni_code: self.isni_code.deep_view(),
            begin_date: self.begin_date.deep_view(),
            end_date: self.end_date.deep_view(),
        }
    }
}

impl FromXml for LabelResponse {
    /// The fields are read in the order given here; the first that fails
    /// decides the failure.
    open spec fn from_xml_spec(doc: DocumentModel, nodes: Seq<char>) -> Result<
        LabelResponseModel,
        ErrorModel,
    > {
        let mbid = Mbid::from_xml_spec(doc, child_spec(nodes, ".//mb:label/@id"@));
        let name = String::from_xml_spec(doc, child_spec(nodes, ".//mb:label/mb:name/text()"@));
        let sort_name = String::from_xml_spec(
            doc,
            child_spec(nodes, ".//mb:label/mb:sort-name/text()"@),
        );
        let disambiguation = String::from_xml_optional_spec(
            doc,
            child_spec(nodes, ".//mb:label/mb:disambiguation/text()"@),
        );
        let aliases = list_spec::<Alias>(
            doc,
            child_spec(nodes, ".//mb:label/mb:alias-list/mb:alias"@),
        );
        let label_code = String::from_xml_optional_spec(
            doc,
            child_spec(nodes, ".//mb:label/mb:label-code/text()"@),
        );
        let label_type = LabelType::from_xml_optional_spec(
            doc,
            child_spec(nodes, ".//mb:label/@type"@),
        );
        let country = String::from_xml_optional_spec(
            doc,
            child_spec(nodes, ".//mb:label/mb:country/text()"@),
        );
        let ipi_code = String::from_xml_optional_spec(
            doc,
            child_spec(nodes, ".//mb:label/mb:ipi/text()"@),
        );
        let isni_code = String::from_xml_optional_spec(
            doc,
            child_spec(nodes, ".//mb:label/mb:isni-list/mb:isni/text()"@),
        );
        let begin_date = PartialDate::from_xml_optional_spec(
            doc,
            child_spec(nodes, ".//mb:label/mb:life-span/mb:begin/text()"@),
        );
        let end_date = PartialDate::from_xml_optional_spec(
            doc,
            child_spec(nodes, ".//mb:label/mb:life-span/mb:end/text()"@),
        );
        if mbid is Err {
            Err(mbid->Err_0)
        } else if name is Err {
            Err(name->Err_0)
        } else if sort_name is Err {
            Err(sort_name->Err_0)
        } else if disambiguation is Err {
            Err(disambiguation->Err_0)
        } else if aliases is Err {
            Err(aliases->Err_0)
        } else if label_code is Err {
            Err(label_code->Err_0)
        } else if label_type is Err {
            Err(label_type->Err_0)
        } else if country is Err {
            Err(country->Err_0)
        } else if ipi_code is Err {
            Err(ipi_code->Err_0)
        } else if isni_code is Err {
            Err(isni_code->Err_0)
        } else if begin_date is Err {
            Err(begin_date->Err_0)
        } else if end_date is Err {
            Err(end_date->Err_0)
        } else {
            Ok(
                LabelResponseModel {
                    mbid: mbid->Ok_0,
                    name: name->Ok_0,
                    sort_name: sort_name->Ok_0,
                    disambiguation: disambiguation->Ok_0,
                    aliases: aliases->Ok_0,
                    label_code: label_code->Ok_0,
                    label_type: label_type->Ok_0,
                    country: country->Ok_0,
                    ipi_code: ipi_code->Ok_0,
                    isni_code: isni_code->Ok_0,
                    begin_date: begin_date->Ok_0,
                    end_date: end_date->Ok_0,
                },
            )
        }
    }

    fn from_xml(doc: &Document, nodes: &str) -> (r: Result<LabelResponse, Error>) {
        let mbid: Mbid = doc.read(nodes, ".//mb:label/@id")?;
        let name: String = doc.read(nodes, ".//mb:label/mb:name/text()")?;
        let sort_name: String = doc.read(nodes, ".//mb:label/mb:sort-name/text()")?;
        let disambiguation: Option<String> = doc.read_optional(
            nodes,
            ".//mb:label/mb:disambiguation/text()",
        )?;
        let aliases: Vec<Alias> = doc.read_list(nodes, ".//mb:label/mb:alias-list/mb:alias")?;
        let label_code: Option<String> = doc.read_optional(
            nodes,
            ".//mb:label/mb:label-code/text()",
        )?;
        let label_type: Option<LabelType> = doc.read_optional(nodes, ".//mb:label/@type")?;
        let country: Option<String> = doc.read_optional(nodes, ".//mb:label/mb:country/text()")?;
        let ipi_code: Option<String> = doc.read_optional(nodes, ".//mb:label/mb:ipi/text()")?;
        let isni_code: Option<String> = doc.read_optional(
            nodes,
            ".//mb:label/mb:isni-list/mb:isni/text()",
        )?;
        let begin_date: Option<PartialDate> = doc.read_optional(
            nodes,
            ".//mb:label/mb:life-span/mb:begin/text()",
        )?;
        let end_date: Option<PartialDate> = doc.read_optional(
            nodes,
            ".//mb:label/mb:life-span/mb:end/text()",
        )?;
        Ok(
            LabelResponse {
                mbid,
                name,
                sort_name,
                disambiguation,
                aliases,
                label_code,
                label_type,
                country,
                ipi_code,
                isni_code,
                begin_date,
                end_date,
            },
        )
    }
}

/// A label entity in the MusicBrainz database.
/// There is quite some controversy in the music industry what a 'label'
/// constitutes.
///
/// For a complete disambiguation see the `LabelType` enum. The labels in
/// MusicBrainz are mostly imprints.
#[derive(Clone, Debug)]
pub struct Label {
    response: LabelResponse,
    options: LabelOptions,
}

impl Label {
    /// MBID of the entity in the MusicBrainz database.
    pub fn mbid(&self) -> (r: &Mbid)
        ensures
            *r == self.response_spec().mbid,
    {
        &self.response.mbid
    }

    /// The official name of the label.
    pub fn name(&self) -> (r: &String)
        ensures
            *r == self.response_spec().name,
    {
        &self.response.name
    }

    /// Version of the `name` converted to latin characters for sorting.
    pub fn sort_name(&self) -> (r: &String)
        ensures
            *r == self.response_spec().sort_name,
    {
        &self.response.sort_name
    }

    /// If there are multiple labels with the same name in the database, a
    /// short disambiguation comment is provided which allows to
    /// differentiate the entities.
    pub fn disambiguation(&self) -> (r: Option<&String>)
        ensures
            r == as_ref_spec(&self.response_spec().disambiguation),
    {
        self.response.disambiguation.as_ref()
    }

    /// Variants of the name mainly used as search help.
    /// These can be variants, spellings of names, missing titles and common
    /// misspellings.
    pub fn aliases(&self) -> (r: OnRequest<&Vec<Alias>>)
        ensures
            r == OnRequest::from_value_spec(
                &self.response_spec().aliases,
                self.options_spec().aliases,
            ),
            r is NotRequested <==> !self.options_spec().aliases,
    {
        OnRequest::from_value(&self.response.aliases, self.options.aliases)
    }

    /// LC code of the label, as issued by the IFPI.
    pub fn label_code(&self) -> (r: Option<&String>)
        ensures
            r == as_ref_spec(&self.response_spec().label_code),
    {
        self.response.label_code.as_ref()
    }

    /// Describes the main activity of the label.
    pub fn label_type(&self) -> (r: Option<LabelType>)
        ensures
            r == self.response_spec().label_type,
    {
        self.response.label_type
    }

    /// ISO 3166 country of origin for the label.
    pub fn country(&self) -> (r: Option<&String>)
        ensures
            r == as_ref_spec(&self.response_spec().country),
    {
        self.response.country.as_ref()
    }

    /// Identifying number of the label as assigned by the CISAC database.
    pub fn ipi_code(&self) -> (r: Option<&String>)
        ensures
            r == as_ref_spec(&self.response_spec().ipi_code),
    {
        self.response.ipi_code.as_ref()
    }

    /// ISNI code of the label.
    pub fn isni_code(&self) -> (r: Option<&String>)
        ensures
            r == as_ref_spec(&self.response_spec().isni_code),
    {
        self.response.isni_code.as_ref()
    }

    /// The date when this label was founded.
    pub fn begin_date(&self) -> (r: Option<&PartialDate>)
        ensures
            r == as_ref_spec(&self.response_spec().begin_date),
    {
        self.response.begin_date.as_ref()
    }

    /// The date when this label ceased to exist or its last release ever was
    /// released.
    pub fn end_date(&self) -> (r: Option<&PartialDate>)
        ensures
            r == as_ref_spec(&self.response_spec().end_date),
    {
        self.response.end_date.as_ref()
    }
}

impl Resource for Label {
    type Options = LabelOptions;

    type Response = LabelResponse;

    open spec fn name_spec() -> Seq<char> {
        "label"@
    }

    open spec fn toggles_spec(options: &LabelOptions) -> Seq<(Seq<char>, bool)> {
        seq![
            ("aliases"@, options.aliases),
        ]
    }

    closed spec fn response_spec(&self) -> LabelResponse {
        self.response
    }

    closed spec fn options_spec(&self) -> LabelOptions {
        self.options
    }

    fn name() -> (n: &'static str) {
        "label"
    }

    fn request(options: &LabelOptions) -> (r: Request) {
        let mut parts = Includes::new();
        parts.offer("aliases", options.aliases);
        assert(parts.toggles() == Self::toggles_spec(options));
        Request { name: String::from_str("label"), inc: parts.finish() }
    }

    fn from_response(response: LabelResponse, options: LabelOptions) -> (record: Label) {
        Label { response, options }
    }
}

} // verus!
