//! Subcategories: listing them, and making a category a subcategory of
//! another one or a top-level category again.

use vstd::prelude::*;
use crate::entity::category::Category;
use crate::service::query::{fails_with, keeps_pace, succeeds_with, written_category, Action, Query, Reply};
use crate::shared::auth::auth_user::AuthUser;
use crate::shared::errors::error_enum::{
    ErrorView,
    ErrorsEnum,
    CATEGORY_NOT_FOUND_MSG,
    SUBCATEGORY_UPDATE_ERROR_MSG,
};
use crate::text::int_decimal;

verus! {

/// A message naming a category and a subcategory: `category `, the category
/// id, `middle` and the subcategory id.
pub open spec fn association_msg(category_id: i64, middle: Seq<char>, subcategory_id: i64) -> Seq<char> {
    "category "@ + int_decimal(category_id as int) + middle + int_decimal(subcategory_id as int)
}

fn association_error(category_id: i64, middle: &str, subcategory_id: i64) -> (e: ErrorsEnum)
    ensures
        e@ == ErrorView::CategoryAssociationError(association_msg(category_id, middle@, subcategory_id)),
{
    let mut s = crate::text::to_owned_string("category ");
    let c = crate::text::i64_to_string(category_id);
    crate::text::push_str(&mut s, c.as_str());
    crate::text::push_str(&mut s, middle);
    let sub = crate::text::i64_to_string(subcategory_id);
    crate::text::push_str(&mut s, sub.as_str());
    ErrorsEnum::CategoryAssociationError(s)
}

fn category_not_found() -> (e: ErrorsEnum)
    ensures
        e@ == ErrorView::NotFound(CATEGORY_NOT_FOUND_MSG@),
{
    ErrorsEnum::NotFound(crate::text::to_owned_string(CATEGORY_NOT_FOUND_MSG))
}

fn subcategory_update_error() -> (e: ErrorsEnum)
    ensures
        e@ == ErrorView::UpdateError(SUBCATEGORY_UPDATE_ERROR_MSG@),
{
    ErrorsEnum::UpdateError(crate::text::to_owned_string(SUBCATEGORY_UPDATE_ERROR_MSG))
}

/// Listing the subcategories of a category.
pub enum GetSubcategoriesForCategory {
    AwaitSubcategories,
    Finished,
}

impl GetSubcategoriesForCategory {
    pub open spec fn awaits(&self, reply: Reply) -> bool {
        match self {
            GetSubcategoriesForCategory::AwaitSubcategories => reply is Categories,
            GetSubcategoriesForCategory::Finished => false,
        }
    }

    /// Users may list subcategories.
    pub fn start<'a>(auth_user: &AuthUser, id: i64) -> (r: (GetSubcategoriesForCategory, Action<'a, Vec<Category>>))
        ensures
            auth_user.role.rank() >= 1 ==> r.0 == GetSubcategoriesForCategory::AwaitSubcategories && r.1
                == Action::<'a, Vec<Category>>::Run(Query::Subcategories(id)),
            auth_user.role.rank() < 1 ==> fails_with(r.1, ErrorView::Forbidden),
            keeps_pace(r.1, |rep: Reply| r.0.awaits(rep)),
    {
        if !auth_user.role.has_user_permission() {
            return (GetSubcategoriesForCategory::Finished, Action::Done(Err(ErrorsEnum::Forbidden)));
        }
        (GetSubcategoriesForCategory::AwaitSubcategories, Action::Run(Query::Subcategories(id)))
    }

    /// The subcategories read, or the category is not found.
    pub fn step<'a>(self, reply: Reply) -> (r: (GetSubcategoriesForCategory, Action<'a, Vec<Category>>))
        requires
            self.awaits(reply),
        ensures
            match reply {
                Reply::Categories(Ok(v)) => succeeds_with(r.1, v),
                _ => fails_with(r.1, ErrorView::NotFound(CATEGORY_NOT_FOUND_MSG@)),
            },
            keeps_pace(r.1, |rep: Reply| r.0.awaits(rep)),
    {
        match reply {
            Reply::Categories(Ok(v)) => (GetSubcategoriesForCategory::Finished, Action::Done(Ok(v))),
            _ => (GetSubcategoriesForCategory::Finished, Action::Done(Err(category_not_found()))),
        }
    }
}

/// Making a category a subcategory of another one.
pub enum AddSubcategoryToCategory {
    AwaitParent { category_id: i64, subcategory_id: i64 },
    AwaitChild { parent: Category, category_id: i64, subcategory_id: i64 },
    AwaitUpdate { parent: Category },
    Finished,
}

impl AddSubcategoryToCategory {
    pub open spec fn awaits(&self, reply: Reply) -> bool {
        match self {
            AddSubcategoryToCategory::AwaitParent { .. } => reply is Category,
            AddSubcategoryToCategory::AwaitChild { .. } => reply is Category,
            AddSubcategoryToCategory::AwaitUpdate { .. } => reply is Category,
            AddSubcategoryToCategory::Finished => false,
        }
    }

    /// Administrators may arrange categories; the parent is looked up first.
    pub fn start<'a>(auth_user: &AuthUser, category_id: i64, subcategory_id: i64) -> (r: (
        AddSubcategoryToCategory,
        Action<'a, Category>,
    ))
        ensures
            auth_user.role.rank() >= 2 ==> r.0 == (AddSubcategoryToCategory::AwaitParent {
                category_id,
                subcategory_id,
            }) && r.1 == Action::<'a, Category>::Run(Query::CategoryById(category_id)),
            auth_user.role.rank() < 2 ==> fails_with(r.1, ErrorView::Forbidden),
            keeps_pace(r.1, |rep: Reply| r.0.awaits(rep)),
    {
        if !auth_user.role.has_admin_permission() {
            return (AddSubcategoryToCategory::Finished, Action::Done(Err(ErrorsEnum::Forbidden)));
        }
        (
            AddSubcategoryToCategory::AwaitParent { category_id, subcategory_id },
            Action::Run(Query::CategoryById(category_id)),
        )
    }

    /// What a step does with a reply.
    pub open spec fn step_post<'a>(self, reply: Reply, r: (AddSubcategoryToCategory, Action<'a, Category>)) -> bool {
        match (self, reply) {
            (AddSubcategoryToCategory::AwaitParent { category_id, subcategory_id }, Reply::Category(c)) => match c {
                Err(_) => fails_with(r.1, ErrorView::NotFound(CATEGORY_NOT_FOUND_MSG@)),
                Ok(parent) => r.0 == (AddSubcategoryToCategory::AwaitChild {
                    parent,
                    category_id,
                    subcategory_id,
                }) && r.1 == Action::<'a, Category>::Run(Query::CategoryById(subcategory_id)),
            },
            (AddSubcategoryToCategory::AwaitChild { parent, category_id, subcategory_id }, Reply::Category(c)) => match c {
                Err(_) => fails_with(r.1, ErrorView::NotFound(CATEGORY_NOT_FOUND_MSG@)),
                Ok(sub) => if sub.parentid == Some(parent.id) {
                    fails_with(
                        r.1,
                        ErrorView::CategoryAssociationError(
                            association_msg(category_id, " already contains subcategory "@, subcategory_id),
                        ),
                    )
                } else {
                    r.0 == (AddSubcategoryToCategory::AwaitUpdate { parent }) && r.1 == Action::<
                        'a,
                        Category,
                    >::Run(Query::SetParent { subcategory: sub, parentid: Some(parent.id) })
                },
            },
            (AddSubcategoryToCategory::AwaitUpdate { parent }, Reply::Category(c)) => match c {
                Err(_) => fails_with(r.1, ErrorView::UpdateError(SUBCATEGORY_UPDATE_ERROR_MSG@)),
                Ok(_) => succeeds_with(r.1, parent),
            },
            _ => false,
        }
    }

    /// Both categories must exist and the subcategory must not have the
    /// category as parent yet; then its parent is set, and the parent
    /// category is the result.
    pub fn step<'a>(self, reply: Reply) -> (r: (AddSubcategoryToCategory, Action<'a, Category>))
        requires
            self.awaits(reply),
        ensures
            self.step_post(reply, r),
            keeps_pace(r.1, |rep: Reply| r.0.awaits(rep)),
    {
        match (self, reply) {
            (AddSubcategoryToCategory::AwaitParent { category_id, subcategory_id }, Reply::Category(c)) => match c {
                Err(_) => (AddSubcategoryToCategory::Finished, Action::Done(Err(category_not_found()))),
                Ok(parent) => (
                    AddSubcategoryToCategory::AwaitChild { parent, category_id, subcategory_id },
                    Action::Run(Query::CategoryById(subcategory_id)),
                ),
            },
            (AddSubcategoryToCategory::AwaitChild { parent, category_id, subcategory_id }, Reply::Category(c)) => {
                match c {
                    Err(_) => (AddSubcategoryToCategory::Finished, Action::Done(Err(category_not_found()))),
                    Ok(sub) => {
                        let already = match sub.parentid {
                            Some(p) => p == parent.id,
                            None => false,
                        };
                        if already {
                            return (
                                AddSubcategoryToCategory::Finished,
                                Action::Done(
                                    Err(association_error(category_id, " already contains subcategory ", subcategory_id)),
                                ),
                            );
                        }
                        let parentid = Some(parent.id);
                        (
                            AddSubcategoryToCategory::AwaitUpdate { parent },
                            Action::Run(Query::SetParent { subcategory: sub, parentid }),
                        )
                    },
                }
            },
            (AddSubcategoryToCategory::AwaitUpdate { parent }, Reply::Category(c)) => match c {
                Err(_) => (AddSubcategoryToCategory::Finished, Action::Done(Err(subcategory_update_error()))),
                Ok(_) => (AddSubcategoryToCategory::Finished, Action::Done(Ok(parent))),
            },
            (s, _) => (s, Action::Done(Err(ErrorsEnum::Forbidden))),
        }
    }
}

/// Making a subcategory a top-level category again.
pub enum DeleteSubcategoryFromCategory {
    AwaitParent { category_id: i64, subcategory_id: i64 },
    AwaitChild { parent_id: i64, category_id: i64, subcategory_id: i64 },
    AwaitUpdate,
    Finished,
}

impl DeleteSubcategoryFromCategory {
    pub open spec fn awaits(&self, reply: Reply) -> bool {
        match self {
            DeleteSubcategoryFromCategory::AwaitParent { .. } => reply is Category,
            DeleteSubcategoryFromCategory::AwaitChild { .. } => reply is Category,
            DeleteSubcategoryFromCategory::AwaitUpdate => reply is Category,
            DeleteSubcategoryFromCategory::Finished => false,
        }
    }

    /// Administrators may arrange categories; the parent is looked up first.
    pub fn start<'a>(auth_user: &AuthUser, category_id: i64, subcategory_id: i64) -> (r: (
        DeleteSubcategoryFromCategory,
        Action<'a, Category>,
    ))
        ensures
            auth_user.role.rank() >= 2 ==> r.0 == (DeleteSubcategoryFromCategory::AwaitParent {
                category_id,
                subcategory_id,
            }) && r.1 == Action::<'a, Category>::Run(Query::CategoryById(category_id)),
            auth_user.role.rank() < 2 ==> fails_with(r.1, ErrorView::Forbidden),
            keeps_pace(r.1, |rep: Reply| r.0.awaits(rep)),
    {
        if !auth_user.role.has_admin_permission() {
            return (DeleteSubcategoryFromCategory::Finished, Action::Done(Err(ErrorsEnum::Forbidden)));
        }
        (
            DeleteSubcategoryFromCategory::AwaitParent { category_id, subcategory_id },
            Action::Run(Query::CategoryById(category_id)),
        )
    }

    /// What a step does with a reply.
    pub open spec fn step_post<'a>(self, reply: Reply, r: (DeleteSubcategoryFromCategory, Action<'a, Category>)) -> bool {
        match (self, reply) {
            (DeleteSubcategoryFromCategory::AwaitParent { category_id, subcategory_id }, Reply::Category(c)) => match c {
                Err(_) => fails_with(r.1, ErrorView::NotFound(CATEGORY_NOT_FOUND_MSG@)),
                Ok(parent) => r.0 == (DeleteSubcategoryFromCategory::AwaitChild {
                    parent_id: parent.id,
                    category_id,
                    subcategory_id,
                }) && r.1 == Action::<'a, Category>::Run(Query::CategoryById(subcategory_id)),
            },
            (DeleteSubcategoryFromCategory::AwaitChild { parent_id, category_id, subcategory_id }, Reply::Category(c)) => match c {
                Err(_) => fails_with(r.1, ErrorView::NotFound(CATEGORY_NOT_FOUND_MSG@)),
                Ok(sub) => if sub.parentid != Some(parent_id) {
                    fails_with(
                        r.1,
                        ErrorView::CategoryAssociationError(
                            association_msg(category_id, " does not contain subcategory "@, subcategory_id),
                        ),
                    )
                } else {
                    r.0 == DeleteSubcategoryFromCategory::AwaitUpdate && r.1 == Action::<'a, Category>::Run(
                        Query::SetParent { subcategory: sub, parentid: None },
                    )
                },
            },
            (DeleteSubcategoryFromCategory::AwaitUpdate, Reply::Category(c)) => match c {
                Err(_) => fails_with(r.1, ErrorView::UpdateError(SUBCATEGORY_UPDATE_ERROR_MSG@)),
                Ok(updated) => succeeds_with(r.1, updated),
            },
            _ => false,
        }
    }

    /// Both categories must exist and the category must be the parent of the
    /// subcategory; then the subcategory's parent is cleared, and the stored
    /// subcategory is the result.
    pub fn step<'a>(self, reply: Reply) -> (r: (DeleteSubcategoryFromCategory, Action<'a, Category>))
        requires
            self.awaits(reply),
        ensures
            self.step_post(reply, r),
            keeps_pace(r.1, |rep: Reply| r.0.awaits(rep)),
    {
        match (self, reply) {
            (DeleteSubcategoryFromCategory::AwaitParent { category_id, subcategory_id }, Reply::Category(c)) => {
                match c {
                    Err(_) => (DeleteSubcategoryFromCategory::Finished, Action::Done(Err(category_not_found()))),
                    Ok(parent) => (
                        DeleteSubcategoryFromCategory::AwaitChild { parent_id: parent.id, category_id, subcategory_id },
                        Action::Run(Query::CategoryById(subcategory_id)),
                    ),
                }
            },
            (DeleteSubcategoryFromCategory::AwaitChild { parent_id, category_id, subcategory_id }, Reply::Category(c)) => {
                match c {
                    Err(_) => (DeleteSubcategoryFromCategory::Finished, Action::Done(Err(category_not_found()))),
                    Ok(sub) => {
                        let contained = match sub.parentid {
                            Some(p) => p == parent_id,
                            None => false,
                        };
                        if !contained {
                            return (
                                DeleteSubcategoryFromCategory::Finished,
                                Action::Done(
                                    Err(association_error(category_id, " does not contain subcategory ", subcategory_id)),
                                ),
                            );
                        }
                        (
                            DeleteSubcategoryFromCategory::AwaitUpdate,
                            Action::Run(Query::SetParent { subcategory: sub, parentid: None }),
                        )
                    },
                }
            },
            (DeleteSubcategoryFromCategory::AwaitUpdate, Reply::Category(c)) => match c {
                Err(_) => (DeleteSubcategoryFromCategory::Finished, Action::Done(Err(subcategory_update_error()))),
                Ok(updated) => (DeleteSubcategoryFromCategory::Finished, Action::Done(Ok(updated))),
            },
            (s, _) => (s, Action::Done(Err(ErrorsEnum::Forbidden))),
        }
    }
}

/// Making a top-level category a subcategory of another one and then
/// removing it from that category again leaves it stored as it was. Adding
/// writes the subcategory with the category as parent and answers the
/// category; removing, when it reads that row back, writes the subcategory
/// with no parent, which is the row as it was before, and answers it.
pub proof fn lemma_add_then_remove_subcategory<'a>(
    category_id: i64,
    subcategory_id: i64,
    parent: Category,
    sub: Category,
    stored: Category,
    restored: Category,
    a1: (AddSubcategoryToCategory, Action<'a, Category>),
    a2: (AddSubcategoryToCategory, Action<'a, Category>),
    a3: (AddSubcategoryToCategory, Action<'a, Category>),
    d1: (DeleteSubcategoryFromCategory, Action<'a, Category>),
    d2: (DeleteSubcategoryFromCategory, Action<'a, Category>),
    d3: (DeleteSubcategoryFromCategory, Action<'a, Category>),
)
    requires
        sub.parentid.is_none(),
        (AddSubcategoryToCategory::AwaitParent { category_id, subcategory_id }).step_post(
            Reply::Category(Ok(parent)),
            a1,
        ),
        a1.0.step_post(Reply::Category(Ok(sub)), a2),
        a2.1 matches Action::Run(q) && written_category(q) == Some(stored),
        a2.0.step_post(Reply::Category(Ok(stored)), a3),
        (DeleteSubcategoryFromCategory::AwaitParent { category_id, subcategory_id }).step_post(
            Reply::Category(Ok(parent)),
            d1,
        ),
        d1.0.step_post(Reply::Category(Ok(stored)), d2),
        d2.1 matches Action::Run(q) && written_category(q) == Some(restored),
        d2.0.step_post(Reply::Category(Ok(restored)), d3),
    ensures
        stored == (Category { id: sub.id, name: sub.name, parentid: Some(parent.id) }),
        restored == sub,
        succeeds_with(a3.1, parent),
        succeeds_with(d3.1, sub),
{
}

/// Adding a subcategory is refused only when the subcategory's parent
/// already is the category: for a subcategory with any other parent, or
/// none, the parent is set to the category and, once stored, the category is
/// the answer.
pub proof fn lemma_add_subcategory_moves_any_other<'a>(
    parent: Category,
    category_id: i64,
    subcategory_id: i64,
    sub: Category,
    r: (AddSubcategoryToCategory, Action<'a, Category>),
    stored: Category,
    r2: (AddSubcategoryToCategory, Action<'a, Category>),
)
    requires
        (AddSubcategoryToCategory::AwaitChild { parent, category_id, subcategory_id }).step_post(
            Reply::Category(Ok(sub)),
            r,
        ),
        r.0.step_post(Reply::Category(Ok(stored)), r2),
    ensures
        sub.parentid == Some(parent.id) <==> r.1 is Done,
        sub.parentid == Some(parent.id) ==> (r.1 matches Action::Done(Err(e)) && e@ is CategoryAssociationError),
        sub.parentid != Some(parent.id) ==> {
            &&& r.1 matches Action::Run(q)
            &&& q == (Query::SetParent { subcategory: sub, parentid: Some(parent.id) })
            &&& r2.1 matches Action::Done(Ok(c)) && c == parent
        },
{
}

/// Removing a subcategory proceeds only when the subcategory's parent is
/// exactly the category: then its parent is cleared; a subcategory without a
/// parent, or with another one, is refused as not contained.
pub proof fn lemma_remove_subcategory_only_from_its_parent<'a>(
    parent_id: i64,
    category_id: i64,
    subcategory_id: i64,
    sub: Category,
    r: (DeleteSubcategoryFromCategory, Action<'a, Category>),
)
    requires
        (DeleteSubcategoryFromCategory::AwaitChild { parent_id, category_id, subcategory_id }).step_post(
            Reply::Category(Ok(sub)),
            r,
        ),
    ensures
        sub.parentid == Some(parent_id) <==> r.1 is Run,
        sub.parentid == Some(parent_id) ==> r.1 == Action::<'a, Category>::Run(
            Query::SetParent { subcategory: sub, parentid: None },
        ),
        sub.parentid is None ==> (r.1 matches Action::Done(Err(e)) && e@ is CategoryAssociationError),
        sub.parentid != Some(parent_id) ==> (r.1 matches Action::Done(Err(e))
            && e@ is CategoryAssociationError),
{
}

} // verus!
