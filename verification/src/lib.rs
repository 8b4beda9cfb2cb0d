//! Common Security Advisory Framework (CSAF) documents, and the conversion of
//! a RustSec advisory into a CSAF VEX document.
//!
//! Every type of a document has a model, reached by `deep_view`, in which
//! texts are sequences of characters and lists are sequences. The contracts
//! of the conversion are stated over these models.

use vstd::prelude::*;

pub mod advisory;
pub mod date_time;
pub mod definitions;
pub mod document;
pub mod interop;
pub mod product_tree;
pub mod text;
pub mod theorems;
pub mod vulnerability;

use document::{Document, DocumentModel};
use product_tree::{ProductTree, ProductTreeModel};
use vulnerability::{Vulnerability, VulnerabilityModel};

verus! {

/// A whole document.
#[derive(Clone, Debug, PartialEq, Eq)]
pub struct Csaf {
    pub document: Document,
    pub product_tree: Option<ProductTree>,
    pub vulnerabilities: Option<Vec<Vulnerability>>,
}

pub struct CsafModel {
    pub document: DocumentModel,
    pub product_tree: Option<ProductTreeModel>,
    pub vulnerabilities: Option<Seq<VulnerabilityModel>>,
}

impl DeepView for Csaf {
    type V = CsafModel;

    open spec fn deep_view(&self) -> CsafModel {
        CsafModel {
            document: self.document.deep_view(),
            product_tree: self.product_tree.deep_view(),
            vulnerabilities: self.vulnerabilities.deep_view(),
        }
    }
}

} // verus!
