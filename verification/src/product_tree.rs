//! The products that a document speaks of.

use crate::definitions::{BranchModel, BranchesT, FullProductName, FullProductNameModel, ProductIdT};
use vstd::prelude::*;

verus! {

/// A named set of products.
#[derive(Clone, Debug, PartialEq, Eq)]
pub struct ProductGroup {
    pub group_id: String,
    pub product_ids: Vec<ProductIdT>,
    pub summary: Option<String>,
}

pub struct ProductGroupModel {
    pub group_id: Seq<char>,
    pub product_ids: Seq<Seq<char>>,
    pub summary: Option<Seq<char>>,
}

impl DeepView for ProductGroup {
    type V = ProductGroupModel;

    open spec fn deep_view(&self) -> ProductGroupModel {
        ProductGroupModel {
            group_id: self.group_id@,
            product_ids: self.product_ids.deep_view(),
            summary: self.summary.deep_view(),
        }
    }
}

/// How one product stands to another.
#[derive(Clone, Copy, Debug, PartialEq, Eq)]
pub enum RelationshipCategory {
    DefaultComponentOf,
    ExternalComponentOf,
    InstalledOn,
    InstalledWith,
    OptionalComponentOf,
}

impl DeepView for RelationshipCategory {
    type V = RelationshipCategory;

    open spec fn deep_view(&self) -> RelationshipCategory {
        *self
    }
}

/// A product that consists of two others in a given relation.
#[derive(Clone, Debug, PartialEq, Eq)]
pub struct Relationship {
    pub category: RelationshipCategory,
    pub full_product_name: FullProductName,
    pub product_reference: ProductIdT,
    pub relates_to_product_reference: ProductIdT,
}

pub struct RelationshipModel {
    pub category: RelationshipCategory,
    pub full_product_name: FullProductNameModel,
    pub product_reference: Seq<char>,
    pub relates_to_product_reference: Seq<char>,
}

impl DeepView for Relationship {
    type V = RelationshipModel;

    open spec fn deep_view(&self) -> RelationshipModel {
        RelationshipModel {
            category: self.category,
            full_product_name: self.full_product_name.deep_view(),
            product_reference: self.product_reference.deep_view(),
            relates_to_product_reference: self.relates_to_product_reference.deep_view(),
        }
    }
}

/// All products of a document, by branch, by name, by group and by relation.
#[derive(Clone, Debug, PartialEq, Eq)]
pub struct ProductTree {
    pub branches: Option<BranchesT>,
    pub full_product_names: Option<Vec<FullProductName>>,
    pub product_groups: Option<Vec<ProductGroup>>,
    pub relationships: Option<Vec<Relationship>>,
}

pub struct ProductTreeModel {
    pub branches: Option<Seq<BranchModel>>,
    pub full_product_names: Option<Seq<FullProductNameModel>>,
    pub product_groups: Option<Seq<ProductGroupModel>>,
    pub relationships: Option<Seq<RelationshipModel>>,
}

impl DeepView for ProductTree {
    type V = ProductTreeModel;

    open spec fn deep_view(&self) -> ProductTreeModel {
        ProductTreeModel {
            branches: self.branches.deep_view(),
            full_product_names: self.full_product_names.deep_view(),
            product_groups: self.product_groups.deep_view(),
            relationships: self.relationships.deep_view(),
        }
    }
}

} // verus!
