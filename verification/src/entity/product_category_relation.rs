//! The relation of a product to a category it belongs to.

use vstd::prelude::*;

verus! {

/// A product belongs to a category.
#[derive(Clone, Copy, Debug, PartialEq, Eq, Structural)]
pub struct ProductCategoryRelation {
    pub productid: i64,
    pub categoryid: i64,
}

} // verus!
