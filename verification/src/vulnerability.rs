//! What a document says of one vulnerability.

use crate::date_time::DateTime;
use crate::definitions::{
    Acknowledgment, AcknowledgmentModel, Note, NoteModel, ProductIdT, Reference, ReferenceModel,
};
use vstd::prelude::*;

verus! {

/// A weakness, by its number and name in the Common Weakness Enumeration.
#[derive(Clone, Debug, PartialEq, Eq)]
pub struct Cwe {
    pub id: String,
    pub name: String,
}

pub struct CweModel {
    pub id: Seq<char>,
    pub name: Seq<char>,
}

impl DeepView for Cwe {
    type V = CweModel;

    open spec fn deep_view(&self) -> CweModel {
        CweModel { id: self.id@, name: self.name@ }
    }
}

/// Why a product is not affected.
#[derive(Clone, Copy, Debug, PartialEq, Eq)]
pub enum FlagLabel {
    ComponentNotPresent,
    InlineMitigationsAlreadyExist,
    VulnerableCodeCannotBeControlledByAdversary,
    VulnerableCodeNotInExecutePath,
    VulnerableCodeNotPresent,
}

impl DeepView for FlagLabel {
    type V = FlagLabel;

    open spec fn deep_view(&self) -> FlagLabel {
        *self
    }
}

/// A machine-readable reason why products are not affected.
#[derive(Clone, Debug, PartialEq, Eq)]
pub struct Flag {
    pub label: FlagLabel,
    pub date: Option<DateTime>,
    pub group_ids: Option<Vec<String>>,
    pub product_ids: Option<Vec<ProductIdT>>,
}

pub struct FlagModel {
    pub label: FlagLabel,
    pub date: Option<DateTime>,
    pub group_ids: Option<Seq<Seq<char>>>,
    pub product_ids: Option<Seq<Seq<char>>>,
}

impl DeepView for Flag {
    type V = FlagModel;

    open spec fn deep_view(&self) -> FlagModel {
        FlagModel {
            label: self.label,
            date: self.date,
            group_ids: self.group_ids.deep_view(),
            product_ids: self.product_ids.deep_view(),
        }
    }
}

/// A name of the vulnerability in some naming system.
#[derive(Clone, Debug, PartialEq, Eq)]
pub struct VulnerabilityId {
    pub system_name: String,
    pub text: String,
}

pub struct VulnerabilityIdModel {
    pub system_name: Seq<char>,
    pub text: Seq<char>,
}

impl DeepView for VulnerabilityId {
    type V = VulnerabilityIdModel;

    open spec fn deep_view(&self) -> VulnerabilityIdModel {
        VulnerabilityIdModel { system_name: self.system_name@, text: self.text@ }
    }
}

/// The role of a party that takes part in handling the vulnerability.
#[derive(Clone, Copy, Debug, PartialEq, Eq)]
pub enum PartyCategory {
    Coordinator,
    Discoverer,
    Other,
    User,
    Vendor,
}

impl DeepView for PartyCategory {
    type V = PartyCategory;

    open spec fn deep_view(&self) -> PartyCategory {
        *self
    }
}

/// How far a party has got in handling the vulnerability.
#[derive(Clone, Copy, Debug, PartialEq, Eq)]
pub enum InvolvementStatus {
    Completed,
    ContactAttempted,
    Disputed,
    InProgress,
    NotContacted,
    Open,
}

impl DeepView for InvolvementStatus {
    type V = InvolvementStatus;

    open spec fn deep_view(&self) -> InvolvementStatus {
        *self
    }
}

/// The part that one party takes in handling the vulnerability.
#[derive(Clone, Debug, PartialEq, Eq)]
pub struct Involvement {
    pub party: PartyCategory,
    pub status: InvolvementStatus,
    pub date: Option<DateTime>,
    pub summary: Option<String>,
}

pub struct InvolvementModel {
    pub party: PartyCategory,
    pub status: InvolvementStatus,
    pub date: Option<DateTime>,
    pub summary: Option<Seq<char>>,
}

impl DeepView for Involvement {
    type V = InvolvementModel;

    open spec fn deep_view(&self) -> InvolvementModel {
        InvolvementModel {
            party: self.party,
            status: self.status,
            date: self.date,
            summary: self.summary.deep_view(),
        }
    }
}

/// The products, sorted by how the vulnerability bears on them.
#[derive(Clone, Debug, PartialEq, Eq)]
pub struct ProductStatus {
    pub first_affected: Option<Vec<ProductIdT>>,
    pub first_fixed: Option<Vec<ProductIdT>>,
    pub fixed: Option<Vec<ProductIdT>>,
    pub known_affected: Option<Vec<ProductIdT>>,
    pub known_not_affected: Option<Vec<ProductIdT>>,
    pub last_affected: Option<Vec<ProductIdT>>,
    pub recommended: Option<Vec<ProductIdT>>,
    pub under_investigation: Option<Vec<ProductIdT>>,
}

pub struct ProductStatusModel {
    pub first_affected: Option<Seq<Seq<char>>>,
    pub first_fixed: Option<Seq<Seq<char>>>,
    pub fixed: Option<Seq<Seq<char>>>,
    pub known_affected: Option<Seq<Seq<char>>>,
    pub known_not_affected: Option<Seq<Seq<char>>>,
    pub last_affected: Option<Seq<Seq<char>>>,
    pub recommended: Option<Seq<Seq<char>>>,
    pub under_investigation: Option<Seq<Seq<char>>>,
}

impl DeepView for ProductStatus {
    type V = ProductStatusModel;

    open spec fn deep_view(&self) -> ProductStatusModel {
        ProductStatusModel {
            first_affected: self.first_affected.deep_view(),
            first_fixed: self.first_fixed.deep_view(),
            fixed: self.fixed.deep_view(),
            known_affected: self.known_affected.deep_view(),
            known_not_affected: self.known_not_affected.deep_view(),
            last_affected: self.last_affected.deep_view(),
            recommended: self.recommended.deep_view(),
            under_investigation: self.under_investigation.deep_view(),
        }
    }
}

/// A list of products as a field of a document: an empty list is left out.
pub open spec fn spec_drop_empty(list: Option<Vec<ProductIdT>>) -> Option<Vec<ProductIdT>> {
    match list {
        Some(products) => if products@.len() == 0 {
            None
        } else {
            list
        },
        None => None,
    }
}

/// A list of products as a field of a document: an empty list is left out.
pub fn drop_empty(list: Option<Vec<ProductIdT>>) -> (field: Option<Vec<ProductIdT>>)
    ensures
        field == spec_drop_empty(list),
{
    match list {
        Some(products) => if products.is_empty() {
            None
        } else {
            Some(products)
        },
        None => None,
    }
}

impl ProductStatus {
    /// Whether no list of the status is there and empty.
    pub open spec fn no_empty_list(self) -> bool {
        &&& self.first_affected matches Some(list) ==> list@.len() > 0
        &&& self.first_fixed matches Some(list) ==> list@.len() > 0
        &&& self.fixed matches Some(list) ==> list@.len() > 0
        &&& self.known_affected matches Some(list) ==> list@.len() > 0
        &&& self.known_not_affected matches Some(list) ==> list@.len() > 0
        &&& self.last_affected matches Some(list) ==> list@.len() > 0
        &&& self.recommended matches Some(list) ==> list@.len() > 0
        &&& self.under_investigation matches Some(list) ==> list@.len() > 0
    }

    /// The same status with every empty list left out, so that a list
    /// without a product and a list that is not there are written alike.
    pub fn normalized(self) -> (status: ProductStatus)
        ensures
            status.no_empty_list(),
            status == (ProductStatus {
                first_affected: spec_drop_empty(self.first_affected),
                first_fixed: spec_drop_empty(self.first_fixed),
                fixed: spec_drop_empty(self.fixed),
                known_affected: spec_drop_empty(self.known_affected),
                known_not_affected: spec_drop_empty(self.known_not_affected),
                last_affected: spec_drop_empty(self.last_affected),
                recommended: spec_drop_empty(self.recommended),
                under_investigation: spec_drop_empty(self.under_investigation),
            }),
            self.no_empty_list() ==> status == self,
    {
        ProductStatus {
            first_affected: drop_empty(self.first_affected),
            first_fixed: drop_empty(self.first_fixed),
            fixed: drop_empty(self.fixed),
            known_affected: drop_empty(self.known_affected),
            known_not_affected: drop_empty(self.known_not_affected),
            last_affected: drop_empty(self.last_affected),
            recommended: drop_empty(self.recommended),
            under_investigation: drop_empty(self.under_investigation),
        }
    }
}

/// What kind of remedy a remediation is.
#[derive(Clone, Copy, Debug, PartialEq, Eq)]
pub enum RemediationCategory {
    Mitigation,
    NoFixPlanned,
    NoneAvailable,
    VendorFix,
    Workaround,
}

impl DeepView for RemediationCategory {
    type V = RemediationCategory;

    open spec fn deep_view(&self) -> RemediationCategory {
        *self
    }
}

/// What has to be restarted for a remedy to take effect.
#[derive(Clone, Copy, Debug, PartialEq, Eq)]
pub enum RestartCategory {
    Connected,
    Dependencies,
    Machine,
    NoRestart,
    Parent,
    Service,
    System,
    VulnerableComponent,
    Zone,
}

impl DeepView for RestartCategory {
    type V = RestartCategory;

    open spec fn deep_view(&self) -> RestartCategory {
        *self
    }
}

/// The restart that a remedy asks for.
#[derive(Clone, Debug, PartialEq, Eq)]
pub struct RestartRequired {
    pub category: RestartCategory,
    pub details: Option<String>,
}

pub struct RestartRequiredModel {
    pub category: RestartCategory,
    pub details: Option<Seq<char>>,
}

impl DeepView for RestartRequired {
    type V = RestartRequiredModel;

    open spec fn deep_view(&self) -> RestartRequiredModel {
        RestartRequiredModel { category: self.category, details: self.details.deep_view() }
    }
}

/// What to do about the vulnerability.
#[derive(Clone, Debug, PartialEq, Eq)]
pub struct Remediation {
    pub category: RemediationCategory,
    pub details: String,
    pub date: Option<DateTime>,
    pub entitlements: Option<Vec<String>>,
    pub group_ids: Option<Vec<String>>,
    pub product_ids: Option<Vec<ProductIdT>>,
    pub restart_required: Option<RestartRequired>,
    pub url: Option<String>,
}

pub struct RemediationModel {
    pub category: RemediationCategory,
    pub details: Seq<char>,
    pub date: Option<DateTime>,
    pub entitlements: Option<Seq<Seq<char>>>,
    pub group_ids: Option<Seq<Seq<char>>>,
    pub product_ids: Option<Seq<Seq<char>>>,
    pub restart_required: Option<RestartRequiredModel>,
    pub url: Option<Seq<char>>,
}

impl DeepView for Remediation {
    type V = RemediationModel;

    open spec fn deep_view(&self) -> RemediationModel {
        RemediationModel {
            category: self.category,
            details: self.details@,
            date: self.date,
            entitlements: self.entitlements.deep_view(),
            group_ids: self.group_ids.deep_view(),
            product_ids: self.product_ids.deep_view(),
            restart_required: self.restart_required.deep_view(),
            url: self.url.deep_view(),
        }
    }
}

/// How severe the vulnerability is for some products. The two scores are
/// held as CVSS vector strings.
#[derive(Clone, Debug, PartialEq, Eq)]
pub struct Score {
    pub products: Vec<ProductIdT>,
    pub cvss_v2: Option<String>,
    pub cvss_v3: Option<String>,
}

pub struct ScoreModel {
    pub products: Seq<Seq<char>>,
    pub cvss_v2: Option<Seq<char>>,
    pub cvss_v3: Option<Seq<char>>,
}

impl DeepView for Score {
    type V = ScoreModel;

    open spec fn deep_view(&self) -> ScoreModel {
        ScoreModel {
            products: self.products.deep_view(),
            cvss_v2: self.cvss_v2.deep_view(),
            cvss_v3: self.cvss_v3.deep_view(),
        }
    }
}

/// What a threat statement is about.
#[derive(Clone, Copy, Debug, PartialEq, Eq)]
pub enum ThreatCategory {
    ExploitStatus,
    Impact,
    TargetSet,
}

impl DeepView for ThreatCategory {
    type V = ThreatCategory;

    open spec fn deep_view(&self) -> ThreatCategory {
        *self
    }
}

/// What the vulnerability threatens.
#[derive(Clone, Debug, PartialEq, Eq)]
pub struct Threat {
    pub category: ThreatCategory,
    pub details: String,
    pub date: Option<DateTime>,
    pub group_ids: Option<Vec<String>>,
    pub product_ids: Option<Vec<ProductIdT>>,
}

pub struct ThreatModel {
    pub category: ThreatCategory,
    pub details: Seq<char>,
    pub date: Option<DateTime>,
    pub group_ids: Option<Seq<Seq<char>>>,
    pub product_ids: Option<Seq<Seq<char>>>,
}

impl DeepView for Threat {
    type V = ThreatModel;

    open spec fn deep_view(&self) -> ThreatModel {
        ThreatModel {
            category: self.category,
            details: self.details@,
            date: self.date,
            group_ids: self.group_ids.deep_view(),
            product_ids: self.product_ids.deep_view(),
        }
    }
}

/// One vulnerability and the products it bears on.
#[derive(Clone, Debug, PartialEq, Eq)]
pub struct Vulnerability {
    pub acknowledgments: Option<Vec<Acknowledgment>>,
    pub cve: Option<String>,
    pub cwe: Option<Cwe>,
    pub discovery_date: Option<DateTime>,
    pub flags: Option<Vec<Flag>>,
    pub ids: Option<Vec<VulnerabilityId>>,
    pub involvements: Option<Vec<Involvement>>,
    pub notes: Option<Vec<Note>>,
    pub product_status: Option<ProductStatus>,
    pub references: Option<Vec<Reference>>,
    pub release_date: Option<DateTime>,
    pub remediations: Option<Vec<Remediation>>,
    pub scores: Option<Vec<Score>>,
    pub threats: Option<Vec<Threat>>,
    pub title: Option<String>,
}

pub struct VulnerabilityModel {
    pub acknowledgments: Option<Seq<AcknowledgmentModel>>,
    pub cve: Option<Seq<char>>,
    pub cwe: Option<CweModel>,
    pub discovery_date: Option<DateTime>,
    pub flags: Option<Seq<FlagModel>>,
    pub ids: Option<Seq<VulnerabilityIdModel>>,
    pub involvements: Option<Seq<InvolvementModel>>,
    pub notes: Option<Seq<NoteModel>>,
    pub product_status: Option<ProductStatusModel>,
    pub references: Option<Seq<ReferenceModel>>,
    pub release_date: Option<DateTime>,
    pub remediations: Option<Seq<RemediationModel>>,
    pub scores: Option<Seq<ScoreModel>>,
    pub threats: Option<Seq<ThreatModel>>,
    pub title: Option<Seq<char>>,
}

impl DeepView for Vulnerability {
    type V = VulnerabilityModel;

    open spec fn deep_view(&self) -> VulnerabilityModel {
        VulnerabilityModel {
            acknowledgments: self.acknowledgments.deep_view(),
            cve: self.cve.deep_view(),
            cwe: self.cwe.deep_view(),
            discovery_date: self.discovery_date,
            flags: self.flags.deep_view(),
            ids: self.ids.deep_view(),
            involvements: self.involvements.deep_view(),
            notes: self.notes.deep_view(),
            product_status: self.product_status.deep_view(),
            references: self.references.deep_view(),
            release_date: self.release_date,
            remediations: self.remediations.deep_view(),
            scores: self.scores.deep_view(),
            threats: self.threats.deep_view(),
            title: self.title.deep_view(),
        }
    }
}

} // verus!
