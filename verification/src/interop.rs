//! The conversion of an advisory into a VEX document: every published
//! version of the package is classified, each classified version becomes a
//! product with an identifier of its own, and the products are arranged into
//! a product tree and a vulnerability record.

use crate::advisory::{
    canonical, canonical_version, detect_kind, identifier_kind, is_vulnerable, kind_by_prefix,
    meets, patched, patched_requirements, requirement_matches, unaffected,
    unaffected_requirements, vulnerable_versions, Advisory, Date, IdKind,
};
use crate::date_time::{is_calendar_date, DateTime};
use crate::definitions::{
    clone_texts, Branch, BranchCategory, BranchModel, BranchesT, FullProductName,
    FullProductNameModel, Note, NoteCategory, NoteModel, ProductIdT, Reference, ReferenceModel,
};
use crate::document::{
    Category, CategoryModel, CsafVersion, Document, DocumentModel, Generator, GeneratorModel,
    Publisher, PublisherCategory, PublisherModel, Revision, RevisionModel, Status, Tracking,
    TrackingModel,
};
use crate::product_tree::{ProductTree, ProductTreeModel};
use crate::text::{decimal, push_decimal, to_uppercase, uppercase};
use crate::vulnerability::{
    ProductStatus, ProductStatusModel, Remediation, RemediationCategory, RemediationModel, Score,
    ScoreModel, Vulnerability, VulnerabilityId, VulnerabilityIdModel, VulnerabilityModel,
};
use crate::{Csaf, CsafModel};
use rustsec::advisory::Versions;
use vstd::prelude::*;
use vstd::string::StringExecFns;

verus! {

/// How an advisory bears on one version of the package.
#[derive(Clone, Copy, Debug, PartialEq, Eq, Structural)]
pub enum Classification {
    Unaffected,
    Patched,
    Vulnerable,
}

impl DeepView for Classification {
    type V = Classification;

    open spec fn deep_view(&self) -> Classification {
        *self
    }
}

/// Why a conversion did not take place.
#[derive(Clone, Copy, Debug, PartialEq, Eq, Structural)]
pub enum ConversionError {
    /// The advisory's identifier is none that RustSec reads.
    UnparseableIdentifier,
    /// The calendar does not have the advisory's date.
    InvalidDate,
    /// The list of published versions could not be had.
    RegistryUnavailable,
    /// The registry does not know the package.
    PackageNotFound,
    /// The published version at this place of the list is no version.
    UnparseableVersion(usize),
}

/// The label that three findings about one version give: never affected comes
/// before patched, and patched before vulnerable.
pub open spec fn spec_classify(unaffected: bool, patched: bool, vulnerable: bool) -> Option<
    Classification,
> {
    if unaffected {
        Some(Classification::Unaffected)
    } else if patched {
        Some(Classification::Patched)
    } else if vulnerable {
        Some(Classification::Vulnerable)
    } else {
        None
    }
}

/// Labels a version from three findings: whether a never-affected range
/// holds it, whether a patched range holds it, and whether the oracle calls
/// it vulnerable. A version of which none holds gets no label.
pub fn classify(unaffected: bool, patched: bool, vulnerable: bool) -> (label: Option<
    Classification,
>)
    ensures
        label == spec_classify(unaffected, patched, vulnerable),
        unaffected ==> label == Some(Classification::Unaffected),
{
    if unaffected {
        Some(Classification::Unaffected)
    } else if patched {
        Some(Classification::Patched)
    } else if vulnerable {
        Some(Classification::Vulnerable)
    } else {
        None
    }
}

/// Whether the version meets one of the requirements.
pub open spec fn matches_any(requirements: Seq<Seq<char>>, version: Seq<char>) -> bool {
    exists|i: int|
        0 <= i < requirements.len() && requirement_matches(#[trigger] requirements[i], version)
}

/// The label that an advisory gives to a version.
pub open spec fn label_of(versions: Versions, version: Seq<char>) -> Option<Classification> {
    spec_classify(
        matches_any(unaffected_requirements(versions), version),
        matches_any(patched_requirements(versions), version),
        vulnerable_versions(versions).contains(version),
    )
}

/// Whether the version meets one of the requirements.
fn meets_any(requirements: &Vec<String>, version: &str) -> (found: bool)
    ensures
        found == matches_any(requirements.deep_view(), version@),
{
    let mut i: usize = 0;
    while i < requirements.len()
        invariant
            i <= requirements.len(),
            forall|j: int|
                0 <= j < i ==> !requirement_matches(
                    #[trigger] requirements.deep_view()[j],
                    version@,
                ),
        decreases requirements.len() - i,
    {
        assert(requirements.deep_view()[i as int] == requirements[i as int]@);
        if meets(requirements[i].as_str(), version) {
            return true;
        }
        i += 1;
    }
    false
}

/// A published version with the label that the advisory gives it.
#[derive(Clone, Debug, PartialEq, Eq)]
pub struct ClassifiedVersion {
    /// The version, as `semver` prints it.
    pub version: String,
    pub label: Classification,
}

pub struct ClassifiedVersionModel {
    pub version: Seq<char>,
    pub label: Classification,
}

impl DeepView for ClassifiedVersion {
    type V = ClassifiedVersionModel;

    open spec fn deep_view(&self) -> ClassifiedVersionModel {
        ClassifiedVersionModel { version: self.version@, label: self.label }
    }
}

/// Whether every text of the list is a version.
pub open spec fn all_parse(registry: Seq<Seq<char>>) -> bool {
    forall|i: int| 0 <= i < registry.len() ==> canonical_version(#[trigger] registry[i]) is Some
}

/// Whether `index` is the first place of the list that holds no version.
pub open spec fn first_unparseable(registry: Seq<Seq<char>>, index: int) -> bool {
    &&& 0 <= index < registry.len()
    &&& canonical_version(registry[index]) is None
    &&& all_parse(registry.take(index))
}

/// The versions of the list that the advisory labels, in the order of the
/// list, each under the name that `semver` prints for it. A version without a
/// label is left out.
pub open spec fn classified(versions: Versions, registry: Seq<Seq<char>>) -> Seq<
    ClassifiedVersionModel,
>
    decreases registry.len(),
{
    if registry.len() == 0 {
        Seq::empty()
    } else {
        let earlier = classified(versions, registry.drop_last());
        match (label_of(versions, registry.last()), canonical_version(registry.last())) {
            (Some(label), Some(version)) => earlier.push(
                ClassifiedVersionModel { version, label },
            ),
            _ => earlier,
        }
    }
}

/// Classifies every published version of a package against an advisory's
/// ranges and oracle. Fails at the first text that is no version.
pub fn classify_versions(versions: &Versions, registry: &Vec<String>) -> (res: Result<
    Vec<ClassifiedVersion>,
    ConversionError,
>)
    ensures
        match res {
            Ok(list) => all_parse(registry.deep_view()) && list.deep_view() == classified(
                *versions,
                registry.deep_view(),
            ),
            Err(error) => error matches ConversionError::UnparseableVersion(index)
                && first_unparseable(registry.deep_view(), index as int),
        },
{
    let never_affected = unaffected(versions);
    let fixed = patched(versions);
    let mut list: Vec<ClassifiedVersion> = Vec::new();
    let mut i: usize = 0;
    while i < registry.len()
        invariant
            i <= registry.len(),
            never_affected.deep_view() == unaffected_requirements(*versions),
            fixed.deep_view() == patched_requirements(*versions),
            all_parse(registry.deep_view().take(i as int)),
            list.deep_view() == classified(*versions, registry.deep_view().take(i as int)),
        decreases registry.len() - i,
    {
        let ghost texts = registry.deep_view();
        let text = registry[i].as_str();
        assert(texts[i as int] == text@);
        assert(texts.take(i + 1).drop_last() =~= texts.take(i as int));
        assert(texts.take(i + 1).last() == text@);
        match canonical(text) {
            None => {
                return Err(ConversionError::UnparseableVersion(i));
            },
            Some(version) => {
                let label = classify(
                    meets_any(&never_affected, text),
                    meets_any(&fixed, text),
                    is_vulnerable(versions, text),
                );
                let ghost before = list.deep_view();
                match label {
                    Some(label) => {
                        list.push(ClassifiedVersion { version, label });
                        assert(list.deep_view() =~= before.push(
                            ClassifiedVersionModel { version: version@, label },
                        ));
                    },
                    None => {},
                }
            },
        }
        assert forall|j: int| 0 <= j < i + 1 implies canonical_version(
            #[trigger] texts.take(i + 1)[j],
        ) is Some by {
            if j < i {
                assert(texts.take(i as int)[j] == texts.take(i + 1)[j]);
            }
        }
        i += 1;
    }
    assert(registry.deep_view().take(i as int) =~= registry.deep_view());
    Ok(list)
}

/// A stem, a hyphen, and a number in decimal.
pub open spec fn spec_numbered_id(stem: Seq<char>, number: nat) -> Seq<char> {
    stem + seq!['-'] + decimal(number)
}

/// The identifier of the product with the given number: the package's name
/// in upper case, a hyphen, and the number.
pub open spec fn product_id(package: Seq<char>, number: nat) -> Seq<char> {
    spec_numbered_id(uppercase(package), number)
}

/// The product identifier that a stem and a number make: `EXAMPLE` and 3
/// make `EXAMPLE-3`.
pub fn numbered_id(stem: String, number: usize) -> (id: ProductIdT)
    ensures
        id.deep_view() == spec_numbered_id(stem@, number as nat),
{
    proof {
        reveal_strlit("-");
    }
    let mut text = stem;
    text.append("-");
    push_decimal(&mut text, number);
    assert(text@ =~= spec_numbered_id(stem@, number as nat));
    ProductIdT(text)
}

/// The branch that stands for one version of the package: a leaf that
/// carries the product.
pub open spec fn version_branch(package: Seq<char>, version: Seq<char>, number: nat) -> BranchModel {
    BranchModel {
        name: version,
        category: BranchCategory::ProductVersion,
        product: Some(
            FullProductNameModel {
                name: package + seq![' '] + version,
                product_id: product_id(package, number),
                product_identification_helper: None,
            },
        ),
        branches: None,
    }
}

/// Makes the branch for one version of the package and gives its product the
/// identifier with the number `id_counter`.
pub fn branch_with_package(version: &str, package: &str, id_counter: usize) -> (branch: Branch)
    ensures
        branch.deep_view() == version_branch(package@, version@, id_counter as nat),
{
    proof {
        reveal_strlit(" ");
    }
    let mut name = String::from_str(package);
    name.append(" ");
    name.append(version);
    assert(name@ =~= package@ + seq![' '] + version@);
    Branch {
        name: String::from_str(version),
        category: BranchCategory::ProductVersion,
        product: Some(
            FullProductName {
                name,
                product_id: numbered_id(to_uppercase(package), id_counter),
                product_identification_helper: None,
            },
        ),
        branches: None,
    }
}

/// The branches of the classified versions that carry the given label, in
/// order. The version at place `k` of the list, counted from 0, has the
/// number `k + 1`, whatever its label.
pub open spec fn bucket(
    package: Seq<char>,
    list: Seq<ClassifiedVersionModel>,
    label: Classification,
) -> Seq<BranchModel>
    decreases list.len(),
{
    if list.len() == 0 {
        Seq::empty()
    } else {
        let earlier = bucket(package, list.drop_last(), label);
        if list.last().label == label {
            earlier.push(version_branch(package, list.last().version, list.len()))
        } else {
            earlier
        }
    }
}

/// The branches of the classified versions of a package, sorted by label.
#[derive(Debug, PartialEq, Eq)]
pub struct BranchTracking {
    pub patched: BranchesT,
    pub unaffected: BranchesT,
    pub vulnerable: BranchesT,
}

pub struct BranchTrackingModel {
    pub patched: Seq<BranchModel>,
    pub unaffected: Seq<BranchModel>,
    pub vulnerable: Seq<BranchModel>,
}

impl DeepView for BranchTracking {
    type V = BranchTrackingModel;

    open spec fn deep_view(&self) -> BranchTrackingModel {
        BranchTrackingModel {
            patched: self.patched.deep_view(),
            unaffected: self.unaffected.deep_view(),
            vulnerable: self.vulnerable.deep_view(),
        }
    }
}

impl BranchTrackingModel {
    /// The branches of a list of classified versions, sorted by label.
    pub open spec fn of(package: Seq<char>, list: Seq<ClassifiedVersionModel>) -> BranchTrackingModel {
        BranchTrackingModel {
            patched: bucket(package, list, Classification::Patched),
            unaffected: bucket(package, list, Classification::Unaffected),
            vulnerable: bucket(package, list, Classification::Vulnerable),
        }
    }

    /// All branches: the patched ones, then the unaffected, then the
    /// vulnerable.
    pub open spec fn all(self) -> Seq<BranchModel> {
        self.patched + self.unaffected + self.vulnerable
    }
}

/// The models of a list of branches grow with the list.
proof fn lemma_push_branch(before: Seq<Branch>, after: Seq<Branch>, branch: Branch)
    requires
        after == before.push(branch),
    ensures
        Seq::new(after.len(), |i: int| after[i].deep_view()) == Seq::new(
            before.len(),
            |i: int| before[i].deep_view(),
        ).push(branch.deep_view()),
{
    assert(Seq::new(after.len(), |i: int| after[i].deep_view()) =~= Seq::new(
        before.len(),
        |i: int| before[i].deep_view(),
    ).push(branch.deep_view()));
}

impl BranchTracking {
    /// Whether every branch carries a product.
    pub open spec fn all_products(self) -> bool {
        &&& self.patched.all_products()
        &&& self.unaffected.all_products()
        &&& self.vulnerable.all_products()
    }

    /// Gives every classified version a branch and a product identifier. The
    /// identifiers are numbered from 1 in the order of the list, in one
    /// sequence for all three labels.
    pub fn from_classified(package: &str, list: &Vec<ClassifiedVersion>) -> (tracking: Self)
        ensures
            tracking.deep_view() == BranchTrackingModel::of(package@, list.deep_view()),
            tracking.all_products(),
    {
        let mut output = BranchTracking {
            patched: BranchesT(Vec::new()),
            unaffected: BranchesT(Vec::new()),
            vulnerable: BranchesT(Vec::new()),
        };
        let mut i: usize = 0;
        proof {
            let start = BranchTrackingModel::of(package@, list.deep_view().take(0));
            assert(output.deep_view().patched =~= start.patched);
            assert(output.deep_view().unaffected =~= start.unaffected);
            assert(output.deep_view().vulnerable =~= start.vulnerable);
        }
        while i < list.len()
            invariant
                i <= list.len(),
                output.deep_view() == BranchTrackingModel::of(
                    package@,
                    list.deep_view().take(i as int),
                ),
                output.all_products(),
            decreases list.len() - i,
        {
            let ghost models = list.deep_view();
            let ghost before = output;
            assert(models.take(i + 1).drop_last() =~= models.take(i as int));
            assert(models.take(i + 1).last() == list[i as int].deep_view());
            let branch = branch_with_package(list[i].version.as_str(), package, i + 1);
            match list[i].label {
                Classification::Patched => {
                    output.patched.0.push(branch);
                    proof {
                        lemma_push_branch(before.patched.0@, output.patched.0@, branch);
                    }
                },
                Classification::Unaffected => {
                    output.unaffected.0.push(branch);
                    proof {
                        lemma_push_branch(before.unaffected.0@, output.unaffected.0@, branch);
                    }
                },
                Classification::Vulnerable => {
                    output.vulnerable.0.push(branch);
                    proof {
                        lemma_push_branch(before.vulnerable.0@, output.vulnerable.0@, branch);
                    }
                },
            }
            i += 1;
        }
        assert(list.deep_view().take(i as int) =~= list.deep_view());
        output
    }

    /// Classifies the published versions of a package against an advisory's
    /// versions and gives every classified version a branch and a product
    /// identifier. Fails at the first published version that is no version.
    pub fn extract_branches(package: &str, versions: &Versions, registry: &Vec<String>) -> (res:
        Result<Self, ConversionError>)
        ensures
            match res {
                Ok(tracking) => {
                    &&& all_parse(registry.deep_view())
                    &&& tracking.deep_view() == BranchTrackingModel::of(
                        package@,
                        classified(*versions, registry.deep_view()),
                    )
                    &&& tracking.all_products()
                },
                Err(error) => error matches ConversionError::UnparseableVersion(index)
                    && first_unparseable(registry.deep_view(), index as int),
            },
    {
        match classify_versions(versions, registry) {
            Ok(list) => Ok(BranchTracking::from_classified(package, &list)),
            Err(error) => Err(error),
        }
    }

    /// All branches in one list: the patched ones, then the unaffected, then
    /// the vulnerable.
    pub fn all(&self) -> (branches: BranchesT)
        ensures
            branches.deep_view() == self.deep_view().all(),
    {
        let mut output = BranchesT(Vec::new());
        let mut patched = self.patched.clone();
        let mut unaffected = self.unaffected.clone();
        let mut vulnerable = self.vulnerable.clone();
        output.0.append(&mut patched.0);
        output.0.append(&mut unaffected.0);
        output.0.append(&mut vulnerable.0);
        assert(output.deep_view() =~= self.deep_view().all());
        output
    }
}

/// The product tree of a package: one branch named for the package, which
/// holds the branches of all classified versions.
pub open spec fn spec_product_tree(package: Seq<char>, tracking: BranchTrackingModel) -> ProductTreeModel {
    ProductTreeModel {
        branches: Some(
            seq![
                BranchModel {
                    name: package,
                    category: BranchCategory::ProductName,
                    product: None,
                    branches: Some(tracking.all()),
                },
            ],
        ),
        full_product_names: None,
        product_groups: None,
        relationships: None,
    }
}

/// Arranges the branches of the classified versions under one branch named
/// for the package: the patched ones, then the unaffected, then the
/// vulnerable.
pub fn product_tree(package: &str, tracking: &BranchTracking) -> (tree: ProductTree)
    ensures
        tree.deep_view() == spec_product_tree(package@, tracking.deep_view()),
{
    let top = Branch {
        name: String::from_str(package),
        category: BranchCategory::ProductName,
        product: None,
        branches: Some(tracking.all()),
    };
    let mut branches: Vec<Branch> = Vec::new();
    branches.push(top);
    proof {
        top.lemma_children();
        assert(branches.deep_view() =~= seq![top.deep_view()]);
    }
    ProductTree {
        branches: Some(BranchesT(branches)),
        full_product_names: None,
        product_groups: None,
        relationships: None,
    }
}

/// What a remediation says to do.
pub const REMEDIATION_DETAILS: &'static str = "Updated crate versions available";

/// The identifier that stands in a score where no product is vulnerable.
pub const INVALID_PRODUCT: &'static str = "INVALID";

/// A list of texts as a field of a document: absent where the list is empty.
pub open spec fn present(texts: Seq<Seq<char>>) -> Option<Seq<Seq<char>>> {
    if texts.len() == 0 {
        None
    } else {
        Some(texts)
    }
}

/// The name of the naming authority under which an identifier is listed.
pub open spec fn system_name(kind: IdKind) -> Seq<char> {
    match kind {
        IdKind::RustSec => "RUSTSEC"@,
        IdKind::Cve => "CVE"@,
        IdKind::Ghsa => "GHSA"@,
        IdKind::Talos => "Talos"@,
        IdKind::Other => "Other"@,
    }
}

/// The product status: the patched products are fixed, the vulnerable ones
/// known to be affected, the unaffected ones known not to be.
pub open spec fn spec_product_status(
    patched: Seq<Seq<char>>,
    unaffected: Seq<Seq<char>>,
    vulnerable: Seq<Seq<char>>,
) -> ProductStatusModel {
    ProductStatusModel {
        first_affected: None,
        first_fixed: None,
        fixed: present(patched),
        known_affected: present(vulnerable),
        known_not_affected: present(unaffected),
        last_affected: None,
        recommended: None,
        under_investigation: None,
    }
}

/// The remediations: where a patched product exists, one vendor fix, meant
/// for the vulnerable products.
pub open spec fn spec_remediations(patched: Seq<Seq<char>>, vulnerable: Seq<Seq<char>>) -> Option<
    Seq<RemediationModel>,
> {
    if patched.len() == 0 {
        None
    } else {
        Some(
            seq![
                RemediationModel {
                    category: RemediationCategory::VendorFix,
                    details: REMEDIATION_DETAILS@,
                    date: None,
                    entitlements: None,
                    group_ids: None,
                    product_ids: present(vulnerable),
                    restart_required: None,
                    url: None,
                },
            ],
        )
    }
}

/// The products of a score: the vulnerable ones, or the one stand-in where
/// there is none.
pub open spec fn spec_score_products(vulnerable: Seq<Seq<char>>) -> Seq<Seq<char>> {
    if vulnerable.len() == 0 {
        seq![INVALID_PRODUCT@]
    } else {
        vulnerable
    }
}

/// The scores: where the advisory carries a severity, one score for the
/// vulnerable products.
pub open spec fn spec_scores(cvss: Option<Seq<char>>, vulnerable: Seq<Seq<char>>) -> Option<
    Seq<ScoreModel>,
> {
    match cvss {
        Some(vector) => Some(
            seq![
                ScoreModel {
                    products: spec_score_products(vulnerable),
                    cvss_v2: None,
                    cvss_v3: Some(vector),
                },
            ],
        ),
        None => None,
    }
}

/// The vulnerability record of an advisory whose identifier is of the given
/// kind, for the given products.
pub open spec fn spec_vulnerability(
    advisory: Advisory,
    kind: IdKind,
    patched: Seq<Seq<char>>,
    unaffected: Seq<Seq<char>>,
    vulnerable: Seq<Seq<char>>,
) -> VulnerabilityModel {
    VulnerabilityModel {
        acknowledgments: None,
        cve: if kind == IdKind::Cve {
            Some(advisory.id@)
        } else {
            None
        },
        cwe: None,
        discovery_date: None,
        flags: None,
        ids: Some(seq![VulnerabilityIdModel { system_name: system_name(kind), text: advisory.id@ }]),
        involvements: None,
        notes: Some(
            seq![
                NoteModel {
                    category: NoteCategory::Description,
                    text: advisory.description@,
                    audience: None,
                    title: None,
                },
            ],
        ),
        product_status: Some(spec_product_status(patched, unaffected, vulnerable)),
        references: None,
        release_date: None,
        remediations: spec_remediations(patched, vulnerable),
        scores: spec_scores(advisory.cvss.deep_view(), vulnerable),
        threats: None,
        title: Some(advisory.title@),
    }
}

/// A copy of a list of identifiers.
fn clone_ids(ids: &Vec<ProductIdT>) -> (copy: Vec<ProductIdT>)
    ensures
        copy.deep_view() == ids.deep_view(),
{
    let copy = ids.clone();
    proof {
        assert(copy.deep_view() =~= ids.deep_view());
    }
    copy
}

/// A list of identifiers as a field of a document: absent where the list is
/// empty.
pub fn present_ids(ids: &Vec<ProductIdT>) -> (field: Option<Vec<ProductIdT>>)
    ensures
        field.deep_view() == present(ids.deep_view()),
        field matches Some(list) ==> list@.len() > 0,
{
    if ids.is_empty() {
        None
    } else {
        Some(clone_ids(ids))
    }
}

/// The products that a score names: the vulnerable ones, or the one stand-in
/// `INVALID_PRODUCT` where no product is vulnerable.
pub fn score_products(vulnerable_ids: &Vec<ProductIdT>) -> (products: Vec<ProductIdT>)
    ensures
        products.deep_view() == spec_score_products(vulnerable_ids.deep_view()),
        products@.len() > 0,
{
    if vulnerable_ids.is_empty() {
        let mut products: Vec<ProductIdT> = Vec::new();
        products.push(ProductIdT(String::from_str(INVALID_PRODUCT)));
        assert(products.deep_view() =~= seq![INVALID_PRODUCT@]);
        products
    } else {
        clone_ids(vulnerable_ids)
    }
}

impl ProductStatus {
    /// The status of the products of one advisory: the patched products are
    /// fixed, the vulnerable ones known to be affected, the unaffected ones
    /// known not to be. A list without a product is left out.
    pub fn of(
        patched_ids: &Vec<ProductIdT>,
        unaffected_ids: &Vec<ProductIdT>,
        vulnerable_ids: &Vec<ProductIdT>,
    ) -> (status: ProductStatus)
        ensures
            status.deep_view() == spec_product_status(
                patched_ids.deep_view(),
                unaffected_ids.deep_view(),
                vulnerable_ids.deep_view(),
            ),
            status.no_empty_list(),
    {
        ProductStatus {
            first_affected: None,
            first_fixed: None,
            fixed: present_ids(patched_ids),
            known_affected: present_ids(vulnerable_ids),
            known_not_affected: present_ids(unaffected_ids),
            last_affected: None,
            recommended: None,
            under_investigation: None,
        }
    }
}

/// Builds the vulnerability record of an advisory from the identifiers of
/// the patched, the unaffected and the vulnerable products. `kind` is the
/// naming authority of the advisory's identifier.
pub fn assemble(
    advisory: &Advisory,
    kind: IdKind,
    patched_ids: &Vec<ProductIdT>,
    unaffected_ids: &Vec<ProductIdT>,
    vulnerable_ids: &Vec<ProductIdT>,
) -> (record: Vulnerability)
    ensures
        record.deep_view() == spec_vulnerability(
            *advisory,
            kind,
            patched_ids.deep_view(),
            unaffected_ids.deep_view(),
            vulnerable_ids.deep_view(),
        ),
        record.remediations is Some <==> patched_ids@.len() > 0,
        record.remediations matches Some(list) ==> list@.len() == 1
            && list@[0].product_ids.deep_view() == present(vulnerable_ids.deep_view()),
        record.product_status matches Some(status) && status.no_empty_list(),
        record.scores is Some <==> advisory.cvss is Some,
{
    let system_name = match kind {
        IdKind::RustSec => "RUSTSEC",
        IdKind::Cve => "CVE",
        IdKind::Ghsa => "GHSA",
        IdKind::Talos => "Talos",
        IdKind::Other => "Other",
    };
    let cve = match kind {
        IdKind::Cve => Some(advisory.id.clone()),
        _ => None,
    };
    let mut ids: Vec<VulnerabilityId> = Vec::new();
    ids.push(
        VulnerabilityId { system_name: String::from_str(system_name), text: advisory.id.clone() },
    );
    let mut notes: Vec<Note> = Vec::new();
    notes.push(
        Note {
            category: NoteCategory::Description,
            text: advisory.description.clone(),
            audience: None,
            title: None,
        },
    );
    let remediations = if !patched_ids.is_empty() {
        let mut list: Vec<Remediation> = Vec::new();
        list.push(
            Remediation {
                category: RemediationCategory::VendorFix,
                details: String::from_str(REMEDIATION_DETAILS),
                date: None,
                entitlements: None,
                group_ids: None,
                product_ids: present_ids(vulnerable_ids),
                restart_required: None,
                url: None,
            },
        );
        Some(list)
    } else {
        None
    };
    let scores = match &advisory.cvss {
        Some(vector) => {
            let mut list: Vec<Score> = Vec::new();
            list.push(
                Score {
                    products: score_products(vulnerable_ids),
                    cvss_v2: None,
                    cvss_v3: Some(vector.clone()),
                },
            );
            Some(list)
        },
        None => None,
    };
    let record = Vulnerability {
        acknowledgments: None,
        cve,
        cwe: None,
        discovery_date: None,
        flags: None,
        ids: Some(ids),
        involvements: None,
        notes: Some(notes),
        product_status: Some(ProductStatus::of(patched_ids, unaffected_ids, vulnerable_ids)),
        references: None,
        release_date: None,
        remediations,
        scores,
        threats: None,
        title: Some(advisory.title.clone()),
    };
    proof {
        let model = spec_vulnerability(
            *advisory,
            kind,
            patched_ids.deep_view(),
            unaffected_ids.deep_view(),
            vulnerable_ids.deep_view(),
        );
        assert(record.deep_view().ids->0 =~= model.ids->0);
        assert(record.deep_view().notes->0 =~= model.notes->0);
        if patched_ids@.len() > 0 {
            assert(record.deep_view().remediations->0 =~= model.remediations->0);
        }
        if advisory.cvss is Some {
            assert(record.deep_view().scores->0 =~= model.scores->0);
        }
    }
    record
}

/// The name under which the advisory database publishes.
pub const PUBLISHER_NAME: &'static str = "RUSTSEC";

/// The address of the advisory database.
pub const PUBLISHER_NAMESPACE: &'static str = "https://rustsec.org/";

/// What the one revision of a generated document is called.
pub const REVISION_SUMMARY: &'static str = "RUSTSEC Advisory";

/// Whether the calendar has the day.
pub open spec fn valid_date(date: Date) -> bool {
    is_calendar_date(date.year as int, date.month as int, date.day as int)
}

/// Midnight, in UTC, at the start of a day that the calendar has.
pub open spec fn spec_release_date(date: Date) -> DateTime {
    DateTime::midnight(date.year as i32, date.month, date.day)
}

/// The references of a document: one for each address, summed up by the
/// address itself; absent where there is no address.
pub open spec fn spec_references(addresses: Seq<Seq<char>>) -> Option<Seq<ReferenceModel>> {
    if addresses.len() == 0 {
        None
    } else {
        Some(
            Seq::new(
                addresses.len(),
                |i: int| ReferenceModel { url: addresses[i], summary: addresses[i], category: None },
            ),
        )
    }
}

/// What a generated document says of itself: a final VEX document in its
/// first revision, published by the advisory database on the advisory's day.
pub open spec fn spec_document(advisory: Advisory, generator: GeneratorModel) -> DocumentModel {
    let date = spec_release_date(advisory.date);
    DocumentModel {
        category: CategoryModel::Vex,
        publisher: PublisherModel {
            category: PublisherCategory::Coordinator,
            name: PUBLISHER_NAME@,
            namespace: PUBLISHER_NAMESPACE@,
            contact_details: None,
            issuing_authority: None,
        },
        title: advisory.title@,
        tracking: TrackingModel {
            current_release_date: date,
            id: advisory.id@,
            initial_release_date: date,
            revision_history: seq![
                RevisionModel {
                    date,
                    legacy_version: None,
                    number: "1"@,
                    summary: REVISION_SUMMARY@,
                },
            ],
            status: Status::Final,
            version: "1"@,
            aliases: present(advisory.aliases.deep_view()),
            generator: Some(generator),
        },
        csaf_version: CsafVersion::TwoDotZero,
        acknowledgments: None,
        aggregate_severity: None,
        distribution: None,
        lang: None,
        notes: None,
        references: spec_references(advisory.references.deep_view()),
        source_lang: None,
    }
}

/// Midnight, in UTC, at the start of the advisory's day; `None` where the
/// calendar does not have the day.
pub fn release_date(date: &Date) -> (at: Option<DateTime>)
    ensures
        at == if valid_date(*date) {
            Some(spec_release_date(*date))
        } else {
            None
        },
        at matches Some(moment) ==> moment.wf(),
{
    if date.year > 0x7fff_ffff {
        None
    } else {
        DateTime::from_ymd(date.year as i32, date.month, date.day)
    }
}

/// One reference for each address, summed up by the address itself; `None`
/// where there is no address.
fn references_of(addresses: &Vec<String>) -> (references: Option<Vec<Reference>>)
    ensures
        references.deep_view() == spec_references(addresses.deep_view()),
{
    if addresses.is_empty() {
        None
    } else {
        let mut list: Vec<Reference> = Vec::new();
        let mut i: usize = 0;
        while i < addresses.len()
            invariant
                i <= addresses.len(),
                list.len() == i,
                forall|j: int|
                    0 <= j < i ==> (#[trigger] list[j]).deep_view() == (ReferenceModel {
                        url: addresses[j]@,
                        summary: addresses[j]@,
                        category: None,
                    }),
            decreases addresses.len() - i,
        {
            list.push(
                Reference {
                    url: addresses[i].clone(),
                    summary: addresses[i].clone(),
                    category: None,
                },
            );
            i += 1;
        }
        proof {
            assert(list.deep_view() =~= spec_references(addresses.deep_view())->0);
        }
        Some(list)
    }
}

/// The whole document that a product tree and a vulnerability record make
/// with what the advisory says of itself.
pub open spec fn spec_compose(
    advisory: Advisory,
    generator: GeneratorModel,
    product_tree: ProductTreeModel,
    vulnerability: VulnerabilityModel,
) -> CsafModel {
    CsafModel {
        document: spec_document(advisory, generator),
        product_tree: Some(product_tree),
        vulnerabilities: Some(seq![vulnerability]),
    }
}

/// Puts a product tree and a vulnerability record into a document that is
/// published by the advisory database on the advisory's day. Fails where the
/// calendar does not have that day, and only there.
pub fn compose(
    advisory: &Advisory,
    generator: Generator,
    product_tree: ProductTree,
    vulnerability: Vulnerability,
) -> (res: Result<Csaf, ConversionError>)
    ensures
        match res {
            Ok(csaf) => valid_date(advisory.date) && csaf.deep_view() == spec_compose(
                *advisory,
                generator.deep_view(),
                product_tree.deep_view(),
                vulnerability.deep_view(),
            ),
            Err(error) => !valid_date(advisory.date) && error == ConversionError::InvalidDate,
        },
{
    let advisory_date = match release_date(&advisory.date) {
        Some(at) => at,
        None => {
            return Err(ConversionError::InvalidDate);
        },
    };
    let mut revision_history: Vec<Revision> = Vec::new();
    revision_history.push(
        Revision {
            date: advisory_date,
            number: String::from_str("1"),
            summary: String::from_str(REVISION_SUMMARY),
            legacy_version: None,
        },
    );
    let aliases = if advisory.aliases.is_empty() {
        None
    } else {
        Some(clone_texts(&advisory.aliases))
    };
    let mut vulnerabilities: Vec<Vulnerability> = Vec::new();
    vulnerabilities.push(vulnerability);
    let csaf = Csaf {
        document: Document {
            category: Category::Vex,
            publisher: Publisher {
                category: PublisherCategory::Coordinator,
                name: String::from_str(PUBLISHER_NAME),
                namespace: String::from_str(PUBLISHER_NAMESPACE),
                contact_details: None,
                issuing_authority: None,
            },
            title: advisory.title.clone(),
            tracking: Tracking {
                current_release_date: advisory_date,
                id: advisory.id.clone(),
                initial_release_date: advisory_date,
                revision_history,
                status: Status::Final,
                version: String::from_str("1"),
                aliases,
                generator: Some(generator),
            },
            csaf_version: CsafVersion::TwoDotZero,
            acknowledgments: None,
            aggregate_severity: None,
            distribution: None,
            lang: None,
            notes: None,
            references: references_of(&advisory.references),
            source_lang: None,
        },
        product_tree: Some(product_tree),
        vulnerabilities: Some(vulnerabilities),
    };
    proof {
        let model = spec_compose(
            *advisory,
            generator.deep_view(),
            product_tree.deep_view(),
            vulnerability.deep_view(),
        );
        assert(csaf.deep_view().document.tracking.revision_history
            =~= model.document.tracking.revision_history);
        assert(csaf.deep_view().vulnerabilities->0 =~= model.vulnerabilities->0);
    }
    Ok(csaf)
}

/// What a registry said when asked for the published versions of a package.
#[derive(Clone, Debug, PartialEq, Eq)]
pub enum RegistryLookup {
    /// The registry could not be reached or read.
    Unavailable,
    /// The registry does not know the package.
    PackageNotFound,
    /// The published versions, in the registry's order.
    Versions(Vec<String>),
}

/// The identifiers of the products that a list of branches carries.
pub open spec fn ids_of(branches: Seq<BranchModel>) -> Seq<Seq<char>> {
    Seq::new(branches.len(), |i: int| branches[i].product->0.product_id)
}

/// The document that an advisory and the published versions of its package
/// give: the versions classified, every classified version a product, the
/// products in a tree and in the vulnerability record.
pub open spec fn spec_csaf(
    advisory: Advisory,
    registry: Seq<Seq<char>>,
    generator: GeneratorModel,
) -> CsafModel {
    let tracking = BranchTrackingModel::of(
        advisory.package@,
        classified(advisory.versions, registry),
    );
    spec_compose(
        advisory,
        generator,
        spec_product_tree(advisory.package@, tracking),
        spec_vulnerability(
            advisory,
            identifier_kind(advisory.id@)->0,
            ids_of(tracking.patched),
            ids_of(tracking.unaffected),
            ids_of(tracking.vulnerable),
        ),
    )
}

/// Whether an advisory can be converted with what the registry said.
pub open spec fn can_convert(advisory: Advisory, lookup: RegistryLookup) -> bool {
    &&& identifier_kind(advisory.id@) is Some
    &&& valid_date(advisory.date)
    &&& lookup matches RegistryLookup::Versions(registry)
    &&& all_parse(registry.deep_view())
}

/// Whether `error` is the one with which the conversion of the advisory
/// fails: the first of an identifier that cannot be read, a date that the
/// calendar lacks, a registry that gave no list, and a published version
/// that is none.
pub open spec fn fails_with(advisory: Advisory, lookup: RegistryLookup, error: ConversionError) -> bool {
    if identifier_kind(advisory.id@) is None {
        error == ConversionError::UnparseableIdentifier
    } else if !valid_date(advisory.date) {
        error == ConversionError::InvalidDate
    } else {
        match lookup {
            RegistryLookup::Unavailable => error == ConversionError::RegistryUnavailable,
            RegistryLookup::PackageNotFound => error == ConversionError::PackageNotFound,
            RegistryLookup::Versions(registry) => error matches ConversionError::UnparseableVersion(
                index,
            ) && first_unparseable(registry.deep_view(), index as int),
        }
    }
}

/// The identifiers of the products of a list of branches that all carry one.
fn ids(branches: &BranchesT) -> (list: Vec<ProductIdT>)
    requires
        branches.all_products(),
    ensures
        list.deep_view() == ids_of(branches.deep_view()),
{
    let list = match branches.product_ids() {
        Some(list) => list,
        None => Vec::new(),
    };
    proof {
        lemma_branch_ids(*branches);
        assert(list.deep_view() =~= branches.spec_product_ids());
    }
    list
}

/// The identifiers that a list of branches carries are those of its model.
proof fn lemma_branch_ids(branches: BranchesT)
    requires
        branches.all_products(),
    ensures
        branches.spec_product_ids() == ids_of(branches.deep_view()),
{
    assert(branches.spec_product_ids() =~= ids_of(branches.deep_view()));
}

impl Csaf {
    /// Converts an advisory into a VEX document, given what the registry
    /// said of the package's published versions and how the document was
    /// generated.
    pub fn convert(advisory: &Advisory, lookup: &RegistryLookup, generator: Generator) -> (res:
        Result<Csaf, ConversionError>)
        ensures
            res is Ok <==> can_convert(*advisory, *lookup),
            res matches Ok(csaf) ==> lookup matches RegistryLookup::Versions(registry)
                && csaf.deep_view() == spec_csaf(
                *advisory,
                registry.deep_view(),
                generator.deep_view(),
            ),
            res is Ok ==> identifier_kind(advisory.id@) == Some(kind_by_prefix(advisory.id@)),
            res matches Err(error) ==> fails_with(*advisory, *lookup, error),
    {
        let kind = match detect_kind(advisory.id.as_str()) {
            Some(kind) => kind,
            None => {
                return Err(ConversionError::UnparseableIdentifier);
            },
        };
        if release_date(&advisory.date).is_none() {
            return Err(ConversionError::InvalidDate);
        }
        let registry = match lookup {
            RegistryLookup::Unavailable => {
                return Err(ConversionError::RegistryUnavailable);
            },
            RegistryLookup::PackageNotFound => {
                return Err(ConversionError::PackageNotFound);
            },
            RegistryLookup::Versions(registry) => registry,
        };
        let package = advisory.package.as_str();
        let branches = match BranchTracking::extract_branches(
            package,
            &advisory.versions,
            registry,
        ) {
            Ok(branches) => branches,
            Err(error) => {
                return Err(error);
            },
        };
        let tree = product_tree(package, &branches);
        let record = assemble(
            advisory,
            kind,
            &ids(&branches.patched),
            &ids(&branches.unaffected),
            &ids(&branches.vulnerable),
        );
        compose(advisory, generator, tree, record)
    }

    /// Converts an advisory into a VEX document, given what the registry
    /// said of the package's published versions. The document names this
    /// library as its generator, at the moment of the call.
    pub fn from(advisory: &Advisory, lookup: &RegistryLookup) -> (res: Result<
        Csaf,
        ConversionError,
    >)
        ensures
            res is Ok <==> can_convert(*advisory, *lookup),
            res matches Ok(csaf) ==> lookup matches RegistryLookup::Versions(registry) && exists|
                now: DateTime,
            |
                now.wf() && csaf.deep_view() == spec_csaf(
                    *advisory,
                    registry.deep_view(),
                    GeneratorModel::at(now),
                ),
            res is Ok ==> identifier_kind(advisory.id@) == Some(kind_by_prefix(advisory.id@)),
            res matches Err(error) ==> fails_with(*advisory, *lookup, error),
    {
        Csaf::convert(advisory, lookup, Generator::default())
    }
}

} // verus!
