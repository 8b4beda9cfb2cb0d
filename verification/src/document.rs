//! The part of a document that describes the document itself.

use crate::date_time::{utc_now, DateTime};
use crate::definitions::{
    Acknowledgment, AcknowledgmentModel, Note, NoteModel, Reference, ReferenceModel,
};
use vstd::prelude::*;
use vstd::string::StringExecFns;

verus! {

/// The name under which this library signs the documents it generates.
pub const ENGINE_NAME: &'static str = "csaf-rs";

/// The version under which this library signs the documents it generates.
pub const ENGINE_VERSION: &'static str = "0.4.0";

/// The profile that a document follows.
#[derive(Clone, Debug, PartialEq, Eq)]
pub enum Category {
    Base,
    SecurityAdvisory,
    Vex,
    Other(String),
}

pub enum CategoryModel {
    Base,
    SecurityAdvisory,
    Vex,
    Other(Seq<char>),
}

impl DeepView for Category {
    type V = CategoryModel;

    open spec fn deep_view(&self) -> CategoryModel {
        match self {
            Category::Base => CategoryModel::Base,
            Category::SecurityAdvisory => CategoryModel::SecurityAdvisory,
            Category::Vex => CategoryModel::Vex,
            Category::Other(text) => CategoryModel::Other(text@),
        }
    }
}

impl CategoryModel {
    /// The category that a text names: one of the three fixed names, or the
    /// text itself.
    pub open spec fn parse(text: Seq<char>) -> CategoryModel {
        if text == "csaf_base"@ {
            CategoryModel::Base
        } else if text == "csaf_security_advisory"@ {
            CategoryModel::SecurityAdvisory
        } else if text == "csaf_vex"@ {
            CategoryModel::Vex
        } else {
            CategoryModel::Other(text)
        }
    }

    /// The text that names the category.
    pub open spec fn text(self) -> Seq<char> {
        match self {
            CategoryModel::Base => "csaf_base"@,
            CategoryModel::SecurityAdvisory => "csaf_security_advisory"@,
            CategoryModel::Vex => "csaf_vex"@,
            CategoryModel::Other(text) => text,
        }
    }

    /// Writing out the category that a text names gives the text back.
    pub proof fn lemma_text_of_parse(text: Seq<char>)
        ensures
            CategoryModel::parse(text).text() == text,
    {
    }
}

impl Category {
    /// Reads a category from its name. Every text names one.
    pub fn from_str(s: &str) -> (res: Result<Self, std::convert::Infallible>)
        ensures
            res matches Ok(category) && category.deep_view() == CategoryModel::parse(s@),
    {
        let text = String::from_str(s);
        Ok(
            if text == String::from_str("csaf_base") {
                Category::Base
            } else if text == String::from_str("csaf_security_advisory") {
                Category::SecurityAdvisory
            } else if text == String::from_str("csaf_vex") {
                Category::Vex
            } else {
                Category::Other(text)
            },
        )
    }

    /// The name of the category, as a document spells it.
    pub fn to_string(&self) -> (text: String)
        ensures
            text@ == self.deep_view().text(),
    {
        match self {
            Category::Base => String::from_str("csaf_base"),
            Category::SecurityAdvisory => String::from_str("csaf_security_advisory"),
            Category::Vex => String::from_str("csaf_vex"),
            Category::Other(s) => s.clone(),
        }
    }
}

/// The version of the format that a document is written in.
#[derive(Clone, Copy, Debug, PartialEq, Eq)]
pub enum CsafVersion {
    TwoDotZero,
}

impl DeepView for CsafVersion {
    type V = CsafVersion;

    open spec fn deep_view(&self) -> CsafVersion {
        *self
    }
}

/// The role of the party that publishes a document.
#[derive(Clone, Copy, Debug, PartialEq, Eq)]
pub enum PublisherCategory {
    Coordinator,
    Discoverer,
    Other,
    Translator,
    User,
    Vendor,
}

impl DeepView for PublisherCategory {
    type V = PublisherCategory;

    open spec fn deep_view(&self) -> PublisherCategory {
        *self
    }
}

/// The party that publishes a document.
#[derive(Clone, Debug, PartialEq, Eq)]
pub struct Publisher {
    pub category: PublisherCategory,
    pub name: String,
    pub namespace: String,
    pub contact_details: Option<String>,
    pub issuing_authority: Option<String>,
}

pub struct PublisherModel {
    pub category: PublisherCategory,
    pub name: Seq<char>,
    pub namespace: Seq<char>,
    pub contact_details: Option<Seq<char>>,
    pub issuing_authority: Option<Seq<char>>,
}

impl DeepView for Publisher {
    type V = PublisherModel;

    open spec fn deep_view(&self) -> PublisherModel {
        PublisherModel {
            category: self.category,
            name: self.name@,
            namespace: self.namespace@,
            contact_details: self.contact_details.deep_view(),
            issuing_authority: self.issuing_authority.deep_view(),
        }
    }
}

/// The program that generated a document.
#[derive(Clone, Debug, PartialEq, Eq)]
pub struct Engine {
    pub name: String,
    pub version: Option<String>,
}

pub struct EngineModel {
    pub name: Seq<char>,
    pub version: Option<Seq<char>>,
}

impl DeepView for Engine {
    type V = EngineModel;

    open spec fn deep_view(&self) -> EngineModel {
        EngineModel { name: self.name@, version: self.version.deep_view() }
    }
}

/// How and when a document was generated.
#[derive(Clone, Debug, PartialEq, Eq)]
pub struct Generator {
    pub engine: Engine,
    pub date: Option<DateTime>,
}

pub struct GeneratorModel {
    pub engine: EngineModel,
    pub date: Option<DateTime>,
}

impl DeepView for Generator {
    type V = GeneratorModel;

    open spec fn deep_view(&self) -> GeneratorModel {
        GeneratorModel { engine: self.engine.deep_view(), date: self.date }
    }
}

impl GeneratorModel {
    /// This library as the generator, at the given moment.
    pub open spec fn at(date: DateTime) -> GeneratorModel {
        GeneratorModel {
            engine: EngineModel { name: ENGINE_NAME@, version: Some(ENGINE_VERSION@) },
            date: Some(date),
        }
    }
}

impl Generator {
    /// This library as the generator, at the given moment.
    pub fn at(date: DateTime) -> (res: Generator)
        ensures
            res.deep_view() == GeneratorModel::at(date),
    {
        Generator {
            engine: Engine {
                name: String::from_str(ENGINE_NAME),
                version: Some(String::from_str(ENGINE_VERSION)),
            },
            date: Some(date),
        }
    }
}

impl Default for Generator {
    /// This library as the generator, at the present moment: whatever the
    /// clock says, the result is `Generator::at` of a moment that exists.
    fn default() -> (res: Self)
        ensures
            exists|now: DateTime| now.wf() && res.deep_view() == GeneratorModel::at(now),
    {
        Generator::at(utc_now())
    }
}

/// One entry of the history of a document.
#[derive(Clone, Debug, PartialEq, Eq)]
pub struct Revision {
    pub date: DateTime,
    pub legacy_version: Option<String>,
    pub number: String,
    pub summary: String,
}

pub struct RevisionModel {
    pub date: DateTime,
    pub legacy_version: Option<Seq<char>>,
    pub number: Seq<char>,
    pub summary: Seq<char>,
}

impl DeepView for Revision {
    type V = RevisionModel;

    open spec fn deep_view(&self) -> RevisionModel {
        RevisionModel {
            date: self.date,
            legacy_version: self.legacy_version.deep_view(),
            number: self.number@,
            summary: self.summary@,
        }
    }
}

/// How far a document has got.
#[derive(Clone, Copy, Debug, PartialEq, Eq)]
pub enum Status {
    Draft,
    Final,
    Interim,
}

impl DeepView for Status {
    type V = Status;

    open spec fn deep_view(&self) -> Status {
        *self
    }
}

/// What is needed to follow a document through its revisions.
#[derive(Clone, Debug, PartialEq, Eq)]
pub struct Tracking {
    pub current_release_date: DateTime,
    pub id: String,
    pub initial_release_date: DateTime,
    pub revision_history: Vec<Revision>,
    pub status: Status,
    pub version: String,
    pub aliases: Option<Vec<String>>,
    pub generator: Option<Generator>,
}

pub struct TrackingModel {
    pub current_release_date: DateTime,
    pub id: Seq<char>,
    pub initial_release_date: DateTime,
    pub revision_history: Seq<RevisionModel>,
    pub status: Status,
    pub version: Seq<char>,
    pub aliases: Option<Seq<Seq<char>>>,
    pub generator: Option<GeneratorModel>,
}

impl DeepView for Tracking {
    type V = TrackingModel;

    open spec fn deep_view(&self) -> TrackingModel {
        TrackingModel {
            current_release_date: self.current_release_date,
            id: self.id@,
            initial_release_date: self.initial_release_date,
            revision_history: self.revision_history.deep_view(),
            status: self.status,
            version: self.version@,
            aliases: self.aliases.deep_view(),
            generator: self.generator.deep_view(),
        }
    }
}

/// How severe the publisher takes the whole of a document to be.
#[derive(Clone, Debug, PartialEq, Eq)]
pub struct AggregateSeverity {
    pub text: String,
    pub namespace: Option<String>,
}

pub struct AggregateSeverityModel {
    pub text: Seq<char>,
    pub namespace: Option<Seq<char>>,
}

impl DeepView for AggregateSeverity {
    type V = AggregateSeverityModel;

    open spec fn deep_view(&self) -> AggregateSeverityModel {
        AggregateSeverityModel { text: self.text@, namespace: self.namespace.deep_view() }
    }
}

/// The labels of the Traffic Light Protocol.
#[derive(Clone, Copy, Debug, PartialEq, Eq)]
pub enum TlpLabel {
    AMBER,
    GREEN,
    RED,
    WHITE,
}

impl DeepView for TlpLabel {
    type V = TlpLabel;

    open spec fn deep_view(&self) -> TlpLabel {
        *self
    }
}

/// A Traffic Light Protocol marking.
#[derive(Clone, Debug, PartialEq, Eq)]
pub struct Tlp {
    pub label: TlpLabel,
    pub url: Option<String>,
}

pub struct TlpModel {
    pub label: TlpLabel,
    pub url: Option<Seq<char>>,
}

impl DeepView for Tlp {
    type V = TlpModel;

    open spec fn deep_view(&self) -> TlpModel {
        TlpModel { label: self.label, url: self.url.deep_view() }
    }
}

/// To whom a document may be passed on.
#[derive(Clone, Debug, PartialEq, Eq)]
pub struct Distribution {
    pub text: Option<String>,
    pub tlp: Option<Tlp>,
}

pub struct DistributionModel {
    pub text: Option<Seq<char>>,
    pub tlp: Option<TlpModel>,
}

impl DeepView for Distribution {
    type V = DistributionModel;

    open spec fn deep_view(&self) -> DistributionModel {
        DistributionModel { text: self.text.deep_view(), tlp: self.tlp.deep_view() }
    }
}

/// What a document says of itself.
#[derive(Clone, Debug, PartialEq, Eq)]
pub struct Document {
    pub category: Category,
    pub publisher: Publisher,
    pub title: String,
    pub tracking: Tracking,
    pub csaf_version: CsafVersion,
    pub acknowledgments: Option<Vec<Acknowledgment>>,
    pub aggregate_severity: Option<AggregateSeverity>,
    pub distribution: Option<Distribution>,
    pub lang: Option<String>,
    pub notes: Option<Vec<Note>>,
    pub references: Option<Vec<Reference>>,
    pub source_lang: Option<String>,
}

pub struct DocumentModel {
    pub category: CategoryModel,
    pub publisher: PublisherModel,
    pub title: Seq<char>,
    pub tracking: TrackingModel,
    pub csaf_version: CsafVersion,
    pub acknowledgments: Option<Seq<AcknowledgmentModel>>,
    pub aggregate_severity: Option<AggregateSeverityModel>,
    pub distribution: Option<DistributionModel>,
    pub lang: Option<Seq<char>>,
    pub notes: Option<Seq<NoteModel>>,
    pub references: Option<Seq<ReferenceModel>>,
    pub source_lang: Option<Seq<char>>,
}

impl DeepView for Document {
    type V = DocumentModel;

    open spec fn deep_view(&self) -> DocumentModel {
        DocumentModel {
            category: self.category.deep_view(),
            publisher: self.publisher.deep_view(),
            title: self.title@,
            tracking: self.tracking.deep_view(),
            csaf_version: self.csaf_version,
            acknowledgments: self.acknowledgments.deep_view(),
            aggregate_severity: self.aggregate_severity.deep_view(),
            distribution: self.distribution.deep_view(),
            lang: self.lang.deep_view(),
            notes: self.notes.deep_view(),
            references: self.references.deep_view(),
            source_lang: self.source_lang.deep_view(),
        }
    }
}

} // verus!
