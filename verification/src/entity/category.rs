//! Categories: stored ones, new ones and changes to existing ones.

use vstd::prelude::*;
use crate::api::dto::category_dto::{CreateCategoryDto, UpdateCategoryDto};

verus! {

/// A stored category; `parentid` names the category it is a subcategory of.
#[derive(Clone, Debug)]
pub struct Category {
    pub id: i64,
    pub name: String,
    pub parentid: Option<i64>,
}

/// The id of a category.
pub struct CategoryId {
    pub id: i64,
}

/// A category to be inserted; its id is drawn from the id sequence.
pub struct NewCategory<'a> {
    pub id: Option<i64>,
    pub name: &'a str,
    pub parentid: Option<i64>,
}

impl<'a> NewCategory<'a> {
    pub fn new(name: &'a str, parentid: Option<i64>) -> (c: NewCategory<'a>)
        ensures
            c.id.is_none(),
            c.name == name,
            c.parentid == parentid,
    {
        NewCategory { id: None, name, parentid }
    }

    pub fn set_id(&mut self, new_id: i64)
        ensures
            final(self).id == Some(new_id),
            final(self).name == old(self).name,
            final(self).parentid == old(self).parentid,
    {
        self.id = Some(new_id);
    }

    /// A new top-level category named as requested.
    pub fn from(create_category: &'a CreateCategoryDto) -> (c: NewCategory<'a>)
        ensures
            c.id.is_none(),
            c.name@ == create_category.name@,
            c.parentid.is_none(),
    {
        NewCategory { id: None, name: create_category.name.as_str(), parentid: None }
    }
}

/// The new values of a stored category.
pub struct UpdateCategory<'a> {
    pub name: &'a str,
    pub parentid: Option<i64>,
}

impl<'a> UpdateCategory<'a> {
    pub fn new(name: &'a str, parentid: Option<i64>) -> (c: UpdateCategory<'a>)
        ensures
            c.name == name,
            c.parentid == parentid,
    {
        UpdateCategory { name, parentid }
    }

    /// Renames a category and makes it a top-level one.
    pub fn from(update_category: &'a UpdateCategoryDto) -> (c: UpdateCategory<'a>)
        ensures
            c.name@ == update_category.name@,
            c.parentid.is_none(),
    {
        UpdateCategory { name: update_category.name.as_str(), parentid: None }
    }

    /// The values a category has now.
    pub fn from_category(category: &'a Category) -> (c: UpdateCategory<'a>)
        ensures
            c.name@ == category.name@,
            c.parentid == category.parentid,
    {
        UpdateCategory { name: category.name.as_str(), parentid: category.parentid }
    }
}

} // verus!
