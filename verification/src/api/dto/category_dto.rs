//! Request bodies that create or rename a category.

use vstd::prelude::*;
use crate::entity::category::{NewCategory, UpdateCategory};

verus! {

/// The longest category name accepted, in characters.
pub const CATEGORY_NAME_MAX_LENGTH: usize = 100;

/// A category name is valid when it holds 1 to 100 characters.
pub open spec fn valid_category_name(name: Seq<char>) -> bool {
    1 <= name.len() <= CATEGORY_NAME_MAX_LENGTH
}

/// A category name is valid exactly when it holds 1 to 100 characters,
/// whatever the characters are.
pub proof fn lemma_category_name_rule(name: Seq<char>)
    ensures
        valid_category_name(name) <==> (1 <= name.len() && name.len() <= 100),
{
}

/// The body of a request that creates a category.
pub struct CreateCategoryDto {
    pub name: String,
}

impl CreateCategoryDto {
    pub fn to_new_category(&self) -> (c: NewCategory<'_>)
        ensures
            c.id.is_none(),
            c.name@ == self.name@,
            c.parentid.is_none(),
    {
        NewCategory::new(self.name.as_str(), None)
    }

    /// Whether the body meets its length rules.
    pub fn validate(&self) -> (b: bool)
        ensures
            b == valid_category_name(self.name@),
    {
        let n = self.name.as_str().unicode_len();
        1 <= n && n <= CATEGORY_NAME_MAX_LENGTH
    }
}

/// The body of a request that renames a category.
pub struct UpdateCategoryDto {
    pub name: String,
}

impl UpdateCategoryDto {
    pub fn to_update_category(&self) -> (c: UpdateCategory<'_>)
        ensures
            c.name@ == self.name@,
            c.parentid.is_none(),
    {
        UpdateCategory::new(self.name.as_str(), None)
    }

    /// Whether the body meets its length rules.
    pub fn validate(&self) -> (b: bool)
        ensures
            b == valid_category_name(self.name@),
    {
        let n = self.name.as_str().unicode_len();
        1 <= n && n <= CATEGORY_NAME_MAX_LENGTH
    }
}

} // verus!
