//! Categories: listing, reading, creating, renaming and deleting them, and
//! the categories of a product.

use vstd::prelude::*;
use crate::api::dto::category_dto::{valid_category_name, CreateCategoryDto, UpdateCategoryDto};
use crate::entity::category::{Category, NewCategory, UpdateCategory};
use crate::service::query::{fails_with, keeps_pace, succeeds_with, Action, Query, Reply};
use crate::shared::auth::auth_user::AuthUser;
use crate::shared::errors::error_enum::{
    ErrorView,
    ErrorsEnum,
    CATEGORY_NOT_FOUND_MSG,
    DTO_NOT_VALID_ERROR_MSG,
    PRODUCT_NOT_FOUND_MSG,
};

verus! {

fn error_with(kind: u8, msg: &str) -> (e: ErrorsEnum)
    requires
        kind < 5,
    ensures
        kind == 0 ==> e@ == ErrorView::NotFound(msg@),
        kind == 1 ==> e@ == ErrorView::CreationError(msg@),
        kind == 2 ==> e@ == ErrorView::UpdateError(msg@),
        kind == 3 ==> e@ == ErrorView::DeletionError(msg@),
        kind == 4 ==> e@ == ErrorView::DTONotValid(msg@),
{
    let m = crate::text::to_owned_string(msg);
    if kind == 0 {
        ErrorsEnum::NotFound(m)
    } else if kind == 1 {
        ErrorsEnum::CreationError(m)
    } else if kind == 2 {
        ErrorsEnum::UpdateError(m)
    } else if kind == 3 {
        ErrorsEnum::DeletionError(m)
    } else {
        ErrorsEnum::DTONotValid(m)
    }
}

/// Listing every category.
pub enum GetCategories {
    AwaitCategories,
    Finished,
}

impl GetCategories {
    pub open spec fn awaits(&self, reply: Reply) -> bool {
        match self {
            GetCategories::AwaitCategories => reply is Categories,
            GetCategories::Finished => false,
        }
    }

    /// Users may list categories.
    pub fn start<'a>(auth_user: &AuthUser) -> (r: (GetCategories, Action<'a, Vec<Category>>))
        ensures
            auth_user.role.rank() >= 1 ==> r.0 == GetCategories::AwaitCategories && r.1 == Action::<
                'a,
                Vec<Category>,
            >::Run(Query::AllCategories),
            auth_user.role.rank() < 1 ==> fails_with(r.1, ErrorView::Forbidden),
            keeps_pace(r.1, |rep: Reply| r.0.awaits(rep)),
    {
        if !auth_user.role.has_user_permission() {
            return (GetCategories::Finished, Action::Done(Err(ErrorsEnum::Forbidden)));
        }
        (GetCategories::AwaitCategories, Action::Run(Query::AllCategories))
    }

    /// The categories read, or not found when they cannot be read.
    pub fn step<'a>(self, reply: Reply) -> (r: (GetCategories, Action<'a, Vec<Category>>))
        requires
            self.awaits(reply),
        ensures
            match reply {
                Reply::Categories(Ok(v)) => succeeds_with(r.1, v),
                _ => fails_with(r.1, ErrorView::NotFound(CATEGORY_NOT_FOUND_MSG@)),
            },
            keeps_pace(r.1, |rep: Reply| r.0.awaits(rep)),
    {
        match reply {
            Reply::Categories(Ok(v)) => (GetCategories::Finished, Action::Done(Ok(v))),
            _ => (GetCategories::Finished, Action::Done(Err(error_with(0, CATEGORY_NOT_FOUND_MSG)))),
        }
    }
}

/// Reading one category.
pub enum GetCategoryById {
    AwaitCategory,
    Finished,
}

impl GetCategoryById {
    pub open spec fn awaits(&self, reply: Reply) -> bool {
        match self {
            GetCategoryById::AwaitCategory => reply is Category,
            GetCategoryById::Finished => false,
        }
    }

    /// Users may read a category.
    pub fn start<'a>(auth_user: &AuthUser, category_id: i64) -> (r: (GetCategoryById, Action<'a, Category>))
        ensures
            auth_user.role.rank() >= 1 ==> r.0 == GetCategoryById::AwaitCategory && r.1 == Action::<
                'a,
                Category,
            >::Run(Query::CategoryById(category_id)),
            auth_user.role.rank() < 1 ==> fails_with(r.1, ErrorView::Forbidden),
            keeps_pace(r.1, |rep: Reply| r.0.awaits(rep)),
    {
        if !auth_user.role.has_user_permission() {
            return (GetCategoryById::Finished, Action::Done(Err(ErrorsEnum::Forbidden)));
        }
        (GetCategoryById::AwaitCategory, Action::Run(Query::CategoryById(category_id)))
    }

    /// The category read, or not found.
    pub fn step<'a>(self, reply: Reply) -> (r: (GetCategoryById, Action<'a, Category>))
        requires
            self.awaits(reply),
        ensures
            match reply {
                Reply::Category(Ok(c)) => succeeds_with(r.1, c),
                _ => fails_with(r.1, ErrorView::NotFound(CATEGORY_NOT_FOUND_MSG@)),
            },
            keeps_pace(r.1, |rep: Reply| r.0.awaits(rep)),
    {
        match reply {
            Reply::Category(Ok(c)) => (GetCategoryById::Finished, Action::Done(Ok(c))),
            _ => (GetCategoryById::Finished, Action::Done(Err(error_with(0, CATEGORY_NOT_FOUND_MSG)))),
        }
    }
}

/// Creating a category.
pub enum CreateCategory {
    AwaitInsert,
    Finished,
}

impl CreateCategory {
    pub open spec fn awaits(&self, reply: Reply) -> bool {
        match self {
            CreateCategory::AwaitInsert => reply is Category,
            CreateCategory::Finished => false,
        }
    }

    /// Administrators may create a category with a valid name; it is
    /// inserted as a top-level category.
    pub fn start<'a>(auth_user: &AuthUser, create_category: &'a CreateCategoryDto) -> (r: (
        CreateCategory,
        Action<'a, Category>,
    ))
        ensures
            auth_user.role.rank() < 2 ==> fails_with(r.1, ErrorView::Forbidden),
            auth_user.role.rank() >= 2 && !valid_category_name(create_category.name@) ==> fails_with(
                r.1,
                ErrorView::DTONotValid(DTO_NOT_VALID_ERROR_MSG@),
            ),
            auth_user.role.rank() >= 2 && valid_category_name(create_category.name@) ==> {
                &&& r.0 == CreateCategory::AwaitInsert
                &&& r.1 matches Action::Run(Query::InsertCategory(c))
                &&& c.id.is_none()
                &&& c.name@ == create_category.name@
                &&& c.parentid.is_none()
            },
            keeps_pace(r.1, |rep: Reply| r.0.awaits(rep)),
    {
        if !auth_user.role.has_admin_permission() {
            return (CreateCategory::Finished, Action::Done(Err(ErrorsEnum::Forbidden)));
        }
        if !create_category.validate() {
            return (CreateCategory::Finished, Action::Done(Err(error_with(4, DTO_NOT_VALID_ERROR_MSG))));
        }
        let new_category = NewCategory::from(create_category);
        (CreateCategory::AwaitInsert, Action::Run(Query::InsertCategory(new_category)))
    }

    /// The category inserted, or a creation error.
    pub fn step<'a>(self, reply: Reply) -> (r: (CreateCategory, Action<'a, Category>))
        requires
            self.awaits(reply),
        ensures
            match reply {
                Reply::Category(Ok(c)) => succeeds_with(r.1, c),
                _ => fails_with(r.1, ErrorView::CreationError("error creating Category"@)),
            },
            keeps_pace(r.1, |rep: Reply| r.0.awaits(rep)),
    {
        match reply {
            Reply::Category(Ok(c)) => (CreateCategory::Finished, Action::Done(Ok(c))),
            _ => (CreateCategory::Finished, Action::Done(Err(error_with(1, "error creating Category")))),
        }
    }
}

/// Renaming a category.
pub enum UpdateCategoryOp<'a> {
    AwaitExisting { category_id: i64, update_category: &'a UpdateCategoryDto },
    AwaitUpdate,
    Finished,
}

impl<'a> UpdateCategoryOp<'a> {
    pub open spec fn awaits(&self, reply: Reply) -> bool {
        match self {
            UpdateCategoryOp::AwaitExisting { .. } => reply is Category,
            UpdateCategoryOp::AwaitUpdate => reply is Category,
            UpdateCategoryOp::Finished => false,
        }
    }

    /// Administrators may rename a category to a valid name; the category is
    /// looked up first.
    pub fn start(auth_user: &AuthUser, category_id: i64, update_category: &'a UpdateCategoryDto) -> (r: (
        UpdateCategoryOp<'a>,
        Action<'a, Category>,
    ))
        ensures
            auth_user.role.rank() < 2 ==> fails_with(r.1, ErrorView::Forbidden),
            auth_user.role.rank() >= 2 && !valid_category_name(update_category.name@) ==> fails_with(
                r.1,
                ErrorView::DTONotValid(DTO_NOT_VALID_ERROR_MSG@),
            ),
            auth_user.role.rank() >= 2 && valid_category_name(update_category.name@) ==> r.0 == (
            UpdateCategoryOp::AwaitExisting { category_id, update_category }) && r.1 == Action::<
                'a,
                Category,
            >::Run(Query::CategoryById(category_id)),
            keeps_pace(r.1, |rep: Reply| r.0.awaits(rep)),
    {
        if !auth_user.role.has_admin_permission() {
            return (UpdateCategoryOp::Finished, Action::Done(Err(ErrorsEnum::Forbidden)));
        }
        if !update_category.validate() {
            return (UpdateCategoryOp::Finished, Action::Done(Err(error_with(4, DTO_NOT_VALID_ERROR_MSG))));
        }
        (UpdateCategoryOp::AwaitExisting { category_id, update_category }, Action::Run(Query::CategoryById(category_id)))
    }

    /// A missing category is not found; otherwise it is stored with the new
    /// name as a top-level category, and the stored category is the result.
    pub fn step(self, reply: Reply) -> (r: (UpdateCategoryOp<'a>, Action<'a, Category>))
        requires
            self.awaits(reply),
        ensures
            match (self, reply) {
                (UpdateCategoryOp::AwaitExisting { category_id, update_category }, Reply::Category(c)) => match c {
                    Err(_) => fails_with(r.1, ErrorView::NotFound(CATEGORY_NOT_FOUND_MSG@)),
                    Ok(_) => {
                        &&& r.0 == UpdateCategoryOp::<'a>::AwaitUpdate
                        &&& r.1 matches Action::Run(Query::UpdateCategory(u, id))
                        &&& id == category_id
                        &&& u.name@ == update_category.name@
                        &&& u.parentid.is_none()
                    },
                },
                (UpdateCategoryOp::AwaitUpdate, Reply::Category(c)) => match c {
                    Ok(c) => succeeds_with(r.1, c),
                    Err(_) => fails_with(r.1, ErrorView::UpdateError("error updating Category"@)),
                },
                _ => false,
            },
            keeps_pace(r.1, |rep: Reply| r.0.awaits(rep)),
    {
        match (self, reply) {
            (UpdateCategoryOp::AwaitExisting { category_id, update_category }, Reply::Category(c)) => match c {
                Err(_) => (UpdateCategoryOp::Finished, Action::Done(Err(error_with(0, CATEGORY_NOT_FOUND_MSG)))),
                Ok(_) => (
                    UpdateCategoryOp::AwaitUpdate,
                    Action::Run(Query::UpdateCategory(UpdateCategory::from(update_category), category_id)),
                ),
            },
            (UpdateCategoryOp::AwaitUpdate, Reply::Category(c)) => match c {
                Ok(c) => (UpdateCategoryOp::Finished, Action::Done(Ok(c))),
                Err(_) => (UpdateCategoryOp::Finished, Action::Done(Err(error_with(2, "error updating Category")))),
            },
            (s, _) => (s, Action::Done(Err(ErrorsEnum::Forbidden))),
        }
    }
}

/// Deleting a category.
pub enum DeleteCategory {
    AwaitDeletion,
    Finished,
}

impl DeleteCategory {
    pub open spec fn awaits(&self, reply: Reply) -> bool {
        match self {
            DeleteCategory::AwaitDeletion => reply is Count,
            DeleteCategory::Finished => false,
        }
    }

    /// Administrators may delete a category.
    pub fn start<'a>(auth_user: &AuthUser, category_id: i64) -> (r: (DeleteCategory, Action<'a, usize>))
        ensures
            auth_user.role.rank() >= 2 ==> r.0 == DeleteCategory::AwaitDeletion && r.1 == Action::<
                'a,
                usize,
            >::Run(Query::DeleteCategory(category_id)),
            auth_user.role.rank() < 2 ==> fails_with(r.1, ErrorView::Forbidden),
            keeps_pace(r.1, |rep: Reply| r.0.awaits(rep)),
    {
        if !auth_user.role.has_admin_permission() {
            return (DeleteCategory::Finished, Action::Done(Err(ErrorsEnum::Forbidden)));
        }
        (DeleteCategory::AwaitDeletion, Action::Run(Query::DeleteCategory(category_id)))
    }

    /// The number of rows deleted; deleting none means the category is not
    /// found, and a failed statement is a deletion error.
    pub fn step<'a>(self, reply: Reply) -> (r: (DeleteCategory, Action<'a, usize>))
        requires
            self.awaits(reply),
        ensures
            match reply {
                Reply::Count(Ok(n)) => if n == 0 {
                    fails_with(r.1, ErrorView::NotFound(CATEGORY_NOT_FOUND_MSG@))
                } else {
                    succeeds_with(r.1, n)
                },
                _ => fails_with(r.1, ErrorView::DeletionError("error deleting Category"@)),
            },
            keeps_pace(r.1, |rep: Reply| r.0.awaits(rep)),
    {
        match reply {
            Reply::Count(Ok(n)) => {
                if n == 0 {
                    return (DeleteCategory::Finished, Action::Done(Err(error_with(0, CATEGORY_NOT_FOUND_MSG))));
                }
                (DeleteCategory::Finished, Action::Done(Ok(n)))
            },
            _ => (DeleteCategory::Finished, Action::Done(Err(error_with(3, "error deleting Category")))),
        }
    }
}

/// Listing the categories of a product.
pub enum GetCategoryForProduct {
    AwaitCategories,
    Finished,
}

impl GetCategoryForProduct {
    pub open spec fn awaits(&self, reply: Reply) -> bool {
        match self {
            GetCategoryForProduct::AwaitCategories => reply is Categories,
            GetCategoryForProduct::Finished => false,
        }
    }

    /// Users may list the categories of a product.
    pub fn start<'a>(auth_user: &AuthUser, product_id: i64) -> (r: (GetCategoryForProduct, Action<'a, Vec<Category>>))
        ensures
            auth_user.role.rank() >= 1 ==> r.0 == GetCategoryForProduct::AwaitCategories && r.1
                == Action::<'a, Vec<Category>>::Run(Query::CategoriesForProduct(product_id)),
            auth_user.role.rank() < 1 ==> fails_with(r.1, ErrorView::Forbidden),
            keeps_pace(r.1, |rep: Reply| r.0.awaits(rep)),
    {
        if !auth_user.role.has_user_permission() {
            return (GetCategoryForProduct::Finished, Action::Done(Err(ErrorsEnum::Forbidden)));
        }
        (GetCategoryForProduct::AwaitCategories, Action::Run(Query::CategoriesForProduct(product_id)))
    }

    /// The categories read, or the product is not found.
    pub fn step<'a>(self, reply: Reply) -> (r: (GetCategoryForProduct, Action<'a, Vec<Category>>))
        requires
            self.awaits(reply),
        ensures
            match reply {
                Reply::Categories(Ok(v)) => succeeds_with(r.1, v),
                _ => fails_with(r.1, ErrorView::NotFound(PRODUCT_NOT_FOUND_MSG@)),
            },
            keeps_pace(r.1, |rep: Reply| r.0.awaits(rep)),
    {
        match reply {
            Reply::Categories(Ok(v)) => (GetCategoryForProduct::Finished, Action::Done(Ok(v))),
            _ => (GetCategoryForProduct::Finished, Action::Done(Err(error_with(0, PRODUCT_NOT_FOUND_MSG)))),
        }
    }
}

} // verus!
