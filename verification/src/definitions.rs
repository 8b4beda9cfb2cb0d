//! Types that several parts of a document share.

use vstd::prelude::*;
use vstd::std_specs::convert::TryFromSpecImpl;

verus! {

/// A copy of a list of texts.
pub(crate) fn clone_texts(texts: &Vec<String>) -> (copy: Vec<String>)
    ensures
        copy.deep_view() == texts.deep_view(),
{
    let copy = texts.clone();
    proof {
        assert(copy.deep_view() =~= texts.deep_view());
    }
    copy
}

/// A copy of a list of texts that may be absent.
pub(crate) fn clone_optional_texts(texts: &Option<Vec<String>>) -> (copy: Option<Vec<String>>)
    ensures
        copy.deep_view() == texts.deep_view(),
{
    match texts {
        Some(texts) => Some(clone_texts(texts)),
        None => None,
    }
}

/// A copy of a text that may be absent.
pub(crate) fn clone_optional_text(text: &Option<String>) -> (copy: Option<String>)
    ensures
        copy == *text,
{
    match text {
        Some(text) => Some(text.clone()),
        None => None,
    }
}

/// Who is thanked for a contribution.
#[derive(Clone, Debug, PartialEq, Eq)]
pub struct Acknowledgment {
    pub names: Option<Vec<String>>,
    pub organization: Option<String>,
    pub summary: Option<String>,
    pub urls: Option<Vec<String>>,
}

pub struct AcknowledgmentModel {
    pub names: Option<Seq<Seq<char>>>,
    pub organization: Option<Seq<char>>,
    pub summary: Option<Seq<char>>,
    pub urls: Option<Seq<Seq<char>>>,
}

impl DeepView for Acknowledgment {
    type V = AcknowledgmentModel;

    open spec fn deep_view(&self) -> AcknowledgmentModel {
        AcknowledgmentModel {
            names: self.names.deep_view(),
            organization: self.organization.deep_view(),
            summary: self.summary.deep_view(),
            urls: self.urls.deep_view(),
        }
    }
}

/// What a branch of the product tree stands for.
#[derive(Clone, Copy, Debug, PartialEq, Eq)]
pub enum BranchCategory {
    Architecture,
    HostName,
    Language,
    Legacy,
    PatchLevel,
    ProductFamily,
    ProductName,
    ProductVersion,
    ServicePack,
    Specification,
    Vendor,
}

impl DeepView for BranchCategory {
    type V = BranchCategory;

    open spec fn deep_view(&self) -> BranchCategory {
        *self
    }
}

/// One digest of a file.
#[derive(Debug, PartialEq, Eq)]
pub struct HashValue {
    pub algorithm: String,
    pub value: String,
}

pub struct HashValueModel {
    pub algorithm: Seq<char>,
    pub value: Seq<char>,
}

impl DeepView for HashValue {
    type V = HashValueModel;

    open spec fn deep_view(&self) -> HashValueModel {
        HashValueModel { algorithm: self.algorithm@, value: self.value@ }
    }
}

impl Clone for HashValue {
    fn clone(&self) -> (res: Self)
        ensures
            res == *self,
    {
        HashValue { algorithm: self.algorithm.clone(), value: self.value.clone() }
    }
}

/// The digests of one file.
#[derive(Debug, PartialEq, Eq)]
pub struct HashCollection {
    pub file_hashes: Vec<HashValue>,
    pub file_name: String,
}

pub struct HashCollectionModel {
    pub file_hashes: Seq<HashValueModel>,
    pub file_name: Seq<char>,
}

impl DeepView for HashCollection {
    type V = HashCollectionModel;

    open spec fn deep_view(&self) -> HashCollectionModel {
        HashCollectionModel {
            file_hashes: self.file_hashes.deep_view(),
            file_name: self.file_name@,
        }
    }
}

impl Clone for HashCollection {
    fn clone(&self) -> (res: Self)
        ensures
            res.deep_view() == self.deep_view(),
    {
        let file_hashes = self.file_hashes.clone();
        proof {
            assert(file_hashes.deep_view() =~= self.file_hashes.deep_view());
        }
        HashCollection { file_hashes, file_name: self.file_name.clone() }
    }
}

/// Further means to tell a product from others.
#[derive(Debug, PartialEq, Eq)]
pub struct ProductIdentificationHelper {
    pub cpe: Option<String>,
    pub hashes: Option<Vec<HashCollection>>,
    pub purl: Option<String>,
    pub sbom_urls: Option<Vec<String>>,
    pub serial_numbers: Option<Vec<String>>,
    pub skus: Option<Vec<String>>,
    pub x_generic_uris: Option<Vec<String>>,
}

pub struct ProductIdentificationHelperModel {
    pub cpe: Option<Seq<char>>,
    pub hashes: Option<Seq<HashCollectionModel>>,
    pub purl: Option<Seq<char>>,
    pub sbom_urls: Option<Seq<Seq<char>>>,
    pub serial_numbers: Option<Seq<Seq<char>>>,
    pub skus: Option<Seq<Seq<char>>>,
    pub x_generic_uris: Option<Seq<Seq<char>>>,
}

impl DeepView for ProductIdentificationHelper {
    type V = ProductIdentificationHelperModel;

    open spec fn deep_view(&self) -> ProductIdentificationHelperModel {
        ProductIdentificationHelperModel {
            cpe: self.cpe.deep_view(),
            hashes: self.hashes.deep_view(),
            purl: self.purl.deep_view(),
            sbom_urls: self.sbom_urls.deep_view(),
            serial_numbers: self.serial_numbers.deep_view(),
            skus: self.skus.deep_view(),
            x_generic_uris: self.x_generic_uris.deep_view(),
        }
    }
}

impl Clone for ProductIdentificationHelper {
    fn clone(&self) -> (res: Self)
        ensures
            res.deep_view() == self.deep_view(),
    {
        let hashes = match &self.hashes {
            Some(hashes) => {
                let copy = hashes.clone();
                proof {
                    assert(copy.deep_view() =~= hashes.deep_view());
                }
                Some(copy)
            },
            None => None,
        };
        ProductIdentificationHelper {
            cpe: clone_optional_text(&self.cpe),
            hashes,
            purl: clone_optional_text(&self.purl),
            sbom_urls: clone_optional_texts(&self.sbom_urls),
            serial_numbers: clone_optional_texts(&self.serial_numbers),
            skus: clone_optional_texts(&self.skus),
            x_generic_uris: clone_optional_texts(&self.x_generic_uris),
        }
    }
}

/// The token by which a document refers to one product.
#[derive(Debug, PartialEq, Eq)]
pub struct ProductIdT(pub String);

impl DeepView for ProductIdT {
    type V = Seq<char>;

    open spec fn deep_view(&self) -> Seq<char> {
        self.0@
    }
}

impl Clone for ProductIdT {
    fn clone(&self) -> (res: Self)
        ensures
            res == *self,
    {
        ProductIdT(self.0.clone())
    }
}

impl TryFrom<&Branch> for ProductIdT {
    type Error = &'static str;

    /// The identifier of the product that a branch carries.
    fn try_from(b: &Branch) -> (res: Result<Self, Self::Error>) {
        match &b.product {
            Some(p) => Ok(p.product_id.clone()),
            None => Err("Cannot convert Branch that does not contain a product to a ProductIdT"),
        }
    }
}

impl TryFromSpecImpl<&Branch> for ProductIdT {
    open spec fn obeys_try_from_spec() -> bool {
        true
    }

    open spec fn try_from_spec(b: &Branch) -> Result<Self, Self::Error> {
        match b.product {
            Some(p) => Ok(p.product_id),
            None => Err("Cannot convert Branch that does not contain a product to a ProductIdT"),
        }
    }
}

/// A product under its full name.
#[derive(Debug, PartialEq, Eq)]
pub struct FullProductName {
    pub name: String,
    pub product_id: ProductIdT,
    pub product_identification_helper: Option<ProductIdentificationHelper>,
}

pub struct FullProductNameModel {
    pub name: Seq<char>,
    pub product_id: Seq<char>,
    pub product_identification_helper: Option<ProductIdentificationHelperModel>,
}

impl DeepView for FullProductName {
    type V = FullProductNameModel;

    open spec fn deep_view(&self) -> FullProductNameModel {
        FullProductNameModel {
            name: self.name@,
            product_id: self.product_id.deep_view(),
            product_identification_helper: self.product_identification_helper.deep_view(),
        }
    }
}

impl Clone for FullProductName {
    fn clone(&self) -> (res: Self)
        ensures
            res.deep_view() == self.deep_view(),
    {
        let product_identification_helper = match &self.product_identification_helper {
            Some(helper) => Some(helper.clone()),
            None => None,
        };
        FullProductName {
            name: self.name.clone(),
            product_id: self.product_id.clone(),
            product_identification_helper,
        }
    }
}

/// A list of branches.
#[derive(Debug, PartialEq, Eq)]
pub struct BranchesT(pub Vec<Branch>);

/// A node of the product tree: a product, or a group of further branches.
#[derive(Debug, PartialEq, Eq)]
pub struct Branch {
    pub name: String,
    pub category: BranchCategory,
    pub product: Option<FullProductName>,
    pub branches: Option<BranchesT>,
}

pub struct BranchModel {
    pub name: Seq<char>,
    pub category: BranchCategory,
    pub product: Option<FullProductNameModel>,
    pub branches: Option<Seq<BranchModel>>,
}

impl Branch {
    /// The model of this branch and of everything below it.
    pub open spec fn model(self) -> BranchModel
        decreases self,
    {
        BranchModel {
            name: self.name@,
            category: self.category,
            product: self.product.deep_view(),
            branches: match self.branches {
                Some(children) => Some(branch_models(children.0@)),
                None => None,
            },
        }
    }

    /// The model's children are the models of the children.
    pub proof fn lemma_children(self)
        ensures
            self.deep_view().branches == self.branches.deep_view(),
    {
        match self.branches {
            Some(children) => {
                lemma_branch_models(children.0@);
                assert(self.deep_view().branches->0 =~= children.deep_view());
            },
            None => {},
        }
    }
}

/// The models of a sequence of branches, in order.
pub open spec fn branch_models(branches: Seq<Branch>) -> Seq<BranchModel>
    decreases branches,
{
    if branches.len() == 0 {
        Seq::empty()
    } else {
        branch_models(branches.drop_last()).push(branches.last().model())
    }
}

/// `branch_models` works element by element.
pub proof fn lemma_branch_models(branches: Seq<Branch>)
    ensures
        branch_models(branches).len() == branches.len(),
        forall|i: int|
            0 <= i < branches.len() ==> (#[trigger] branch_models(branches)[i])
                == branches[i].model(),
    decreases branches.len(),
{
    if branches.len() > 0 {
        lemma_branch_models(branches.drop_last());
    }
}

impl DeepView for Branch {
    type V = BranchModel;

    open spec fn deep_view(&self) -> BranchModel {
        self.model()
    }
}

impl DeepView for BranchesT {
    type V = Seq<BranchModel>;

    open spec fn deep_view(&self) -> Seq<BranchModel> {
        self.0.deep_view()
    }
}

impl Clone for Branch {
    fn clone(&self) -> (res: Self)
        ensures
            res.deep_view() == self.deep_view(),
        decreases self,
    {
        let branches = match &self.branches {
            Some(children) => {
                let mut copies: Vec<Branch> = Vec::new();
                let mut i: usize = 0;
                while i < children.0.len()
                    invariant
                        self.branches == Some(*children),
                        i <= children.0.len(),
                        copies.len() == i,
                        forall|j: int|
                            0 <= j < i ==> (#[trigger] copies[j]).deep_view()
                                == children.0[j].deep_view(),
                    decreases children.0.len() - i,
                {
                    let child = &children.0[i];
                    proof {
                        let ghost below = *children;
                        assert(self.branches->0 == below);
                        assert(decreases_to!(below.0 => below.0[i as int]));
                    }
                    let copy = child.clone();
                    copies.push(copy);
                    i += 1;
                }
                proof {
                    assert(copies.deep_view() =~= children.0.deep_view());
                }
                Some(BranchesT(copies))
            },
            None => None,
        };
        let product = match &self.product {
            Some(product) => Some(product.clone()),
            None => None,
        };
        let res = Branch { name: self.name.clone(), category: self.category, product, branches };
        proof {
            res.lemma_children();
            self.lemma_children();
        }
        res
    }
}

impl Clone for BranchesT {
    fn clone(&self) -> (res: Self)
        ensures
            res.deep_view() == self.deep_view(),
    {
        let copies = self.0.clone();
        proof {
            assert(copies.deep_view() =~= self.0.deep_view());
        }
        BranchesT(copies)
    }
}

impl BranchesT {
    /// Whether every branch of the list carries a product.
    pub open spec fn all_products(self) -> bool {
        forall|i: int| 0 <= i < self.0@.len() ==> (#[trigger] self.0@[i]).product is Some
    }

    /// The identifiers of the listed products, in order.
    pub open spec fn spec_product_ids(self) -> Seq<Seq<char>> {
        Seq::new(self.0@.len(), |i: int| self.0@[i].product->0.product_id.0@)
    }

    /// The identifiers of the listed products, in order; `None` for an empty
    /// list.
    pub fn product_ids(&self) -> (res: Option<Vec<ProductIdT>>)
        requires
            self.all_products(),
        ensures
            res.deep_view() == if self.0@.len() == 0 {
                None
            } else {
                Some(self.spec_product_ids())
            },
    {
        if self.0.is_empty() {
            None
        } else {
            let mut ids: Vec<ProductIdT> = Vec::new();
            let mut i: usize = 0;
            while i < self.0.len()
                invariant
                    self.all_products(),
                    i <= self.0.len(),
                    ids.len() == i,
                    forall|j: int| 0 <= j < i ==> (#[trigger] ids[j]).0@ == self.spec_product_ids()[j],
                decreases self.0.len() - i,
            {
                ids.push(ProductIdT::try_from(&self.0[i]).unwrap());
                i += 1;
            }
            proof {
                assert(ids.deep_view() =~= self.spec_product_ids());
            }
            Some(ids)
        }
    }
}

/// What a note is for.
#[derive(Clone, Copy, Debug, PartialEq, Eq)]
pub enum NoteCategory {
    Description,
    Details,
    Faq,
    General,
    LegalDisclaimer,
    Other,
    Summary,
}

impl DeepView for NoteCategory {
    type V = NoteCategory;

    open spec fn deep_view(&self) -> NoteCategory {
        *self
    }
}

/// A piece of free text.
#[derive(Clone, Debug, PartialEq, Eq)]
pub struct Note {
    pub category: NoteCategory,
    pub text: String,
    pub audience: Option<String>,
    pub title: Option<String>,
}

pub struct NoteModel {
    pub category: NoteCategory,
    pub text: Seq<char>,
    pub audience: Option<Seq<char>>,
    pub title: Option<Seq<char>>,
}

impl DeepView for Note {
    type V = NoteModel;

    open spec fn deep_view(&self) -> NoteModel {
        NoteModel {
            category: self.category,
            text: self.text@,
            audience: self.audience.deep_view(),
            title: self.title.deep_view(),
        }
    }
}

/// Whether a reference points to the document itself.
#[derive(Clone, Copy, Debug, PartialEq, Eq)]
pub enum ReferenceCategory {
    External,
    RefSelf,
}

impl DeepView for ReferenceCategory {
    type V = ReferenceCategory;

    open spec fn deep_view(&self) -> ReferenceCategory {
        *self
    }
}

/// A pointer to further reading.
#[derive(Clone, Debug, PartialEq, Eq)]
pub struct Reference {
    pub url: String,
    pub summary: String,
    pub category: Option<ReferenceCategory>,
}

pub struct ReferenceModel {
    pub url: Seq<char>,
    pub summary: Seq<char>,
    pub category: Option<ReferenceCategory>,
}

impl DeepView for Reference {
    type V = ReferenceModel;

    open spec fn deep_view(&self) -> ReferenceModel {
        ReferenceModel { url: self.url@, summary: self.summary@, category: self.category }
    }
}

} // verus!
