//! The products of a category: listing them, adding a product to a category
//! and removing it again.

use vstd::prelude::*;
use crate::api::controller::pagination_helper::Pagination;
use crate::entity::product_category_relation::ProductCategoryRelation;
use crate::entity::user::User;
use crate::service::auth_helper::{can_mutate_product, may_mutate};
use crate::service::query::{fails_with, keeps_pace, succeeds_with, Action, DbError, Query, Reply};
use crate::shared::auth::auth_user::AuthUser;
use crate::shared::entity::product::{Product, ProductWithUser};
use crate::shared::errors::error_enum::{
    ErrorView,
    ErrorsEnum,
    CATEGORY_NOT_FOUND_MSG,
    PRODUCT_NOT_FOUND_MSG,
    USER_NOT_FOUND_MSG,
};
use crate::text::int_decimal;

verus! {

/// A message naming a product and a category: `prefix`, the product id,
/// `middle`, the category id and a closing quote.
pub open spec fn product_category_msg(prefix: Seq<char>, product_id: i64, middle: Seq<char>, category_id: i64) -> Seq<char> {
    prefix + int_decimal(product_id as int) + middle + int_decimal(category_id as int) + "'"@
}

fn product_category_text(prefix: &str, product_id: i64, middle: &str, category_id: i64) -> (s: String)
    ensures
        s@ == product_category_msg(prefix@, product_id, middle@, category_id),
{
    let mut s = crate::text::to_owned_string(prefix);
    let p = crate::text::i64_to_string(product_id);
    crate::text::push_str(&mut s, p.as_str());
    crate::text::push_str(&mut s, middle);
    let c = crate::text::i64_to_string(category_id);
    crate::text::push_str(&mut s, c.as_str());
    crate::text::push_str(&mut s, "'");
    s
}

fn not_found(msg: &str) -> (e: ErrorsEnum)
    ensures
        e@ == ErrorView::NotFound(msg@),
{
    ErrorsEnum::NotFound(crate::text::to_owned_string(msg))
}

/// Listing the products of a category and of its direct subcategories, page
/// by page.
pub enum GetProductsForCategory<'a> {
    AwaitCategory { pagination: &'a Pagination, category_id: i64 },
    AwaitProducts,
    Finished,
}

impl<'a> GetProductsForCategory<'a> {
    pub open spec fn awaits(&self, reply: Reply) -> bool {
        match self {
            GetProductsForCategory::AwaitCategory { .. } => reply is Category,
            GetProductsForCategory::AwaitProducts => reply is ProductPage,
            GetProductsForCategory::Finished => false,
        }
    }

    /// Users may list products; the category is looked up first.
    pub fn start(auth_user: &'a AuthUser, pagination: &'a Pagination, category_id: i64) -> (r: (
        GetProductsForCategory<'a>,
        Action<'a, (Vec<ProductWithUser>, i64)>,
    ))
        ensures
            auth_user.role.rank() >= 1 ==> r.0 == (GetProductsForCategory::AwaitCategory {
                pagination,
                category_id,
            }) && r.1 == Action::<'a, (Vec<ProductWithUser>, i64)>::Run(
                Query::CategoryById(category_id),
            ),
            auth_user.role.rank() < 1 ==> fails_with(r.1, ErrorView::Forbidden),
            keeps_pace(r.1, |rep: Reply| r.0.awaits(rep)),
    {
        if !auth_user.role.has_user_permission() {
            return (GetProductsForCategory::Finished, Action::Done(Err(ErrorsEnum::Forbidden)));
        }
        (
            GetProductsForCategory::AwaitCategory { pagination, category_id },
            Action::Run(Query::CategoryById(category_id)),
        )
    }

    /// A missing category is not found; otherwise the page of its products
    /// is the result, and failing to read it is a database error.
    pub fn step(self, reply: Reply) -> (r: (GetProductsForCategory<'a>, Action<'a, (Vec<ProductWithUser>, i64)>))
        requires
            self.awaits(reply),
        ensures
            match (self, reply) {
                (GetProductsForCategory::AwaitCategory { pagination, category_id }, Reply::Category(c)) => match c {
                    Err(_) => fails_with(r.1, ErrorView::NotFound(CATEGORY_NOT_FOUND_MSG@)),
                    Ok(_) => r.0 == GetProductsForCategory::<'a>::AwaitProducts && r.1 == Action::<
                        'a,
                        (Vec<ProductWithUser>, i64),
                    >::Run(Query::ProductsForCategory(pagination, category_id)),
                },
                (GetProductsForCategory::AwaitProducts, Reply::ProductPage(p)) => match p {
                    Err(_) => fails_with(
                        r.1,
                        ErrorView::DieselError("error getting products for category"@),
                    ),
                    Ok(page) => succeeds_with(r.1, page),
                },
                _ => false,
            },
            keeps_pace(r.1, |rep: Reply| r.0.awaits(rep)),
    {
        match (self, reply) {
            (GetProductsForCategory::AwaitCategory { pagination, category_id }, Reply::Category(c)) => {
                match c {
                    Err(_) => (GetProductsForCategory::Finished, Action::Done(Err(not_found(CATEGORY_NOT_FOUND_MSG)))),
                    Ok(_) => (
                        GetProductsForCategory::AwaitProducts,
                        Action::Run(Query::ProductsForCategory(pagination, category_id)),
                    ),
                }
            },
            (GetProductsForCategory::AwaitProducts, Reply::ProductPage(p)) => match p {
                Err(_) => (
                    GetProductsForCategory::Finished,
                    Action::Done(
                        Err(
                            ErrorsEnum::DieselError(
                                crate::text::to_owned_string("error getting products for category"),
                            ),
                        ),
                    ),
                ),
                Ok(page) => (GetProductsForCategory::Finished, Action::Done(Ok(page))),
            },
            (s, _) => (s, Action::Done(Err(ErrorsEnum::Forbidden))),
        }
    }
}

/// Adding a product to a category.
pub enum AddProductToCategory<'a> {
    AwaitCategory { auth_user: &'a AuthUser, category_id: i64, product_id: i64 },
    AwaitProduct { auth_user: &'a AuthUser, category_id: i64, product_id: i64 },
    AwaitRelation { product: Product, category_id: i64, product_id: i64 },
    AwaitInsert { product: Product, category_id: i64, product_id: i64 },
    AwaitUser { product: Product },
    Finished,
}

impl<'a> AddProductToCategory<'a> {
    pub open spec fn awaits(&self, reply: Reply) -> bool {
        match self {
            AddProductToCategory::AwaitCategory { .. } => reply is Category,
            AddProductToCategory::AwaitProduct { .. } => reply is Product,
            AddProductToCategory::AwaitRelation { .. } => reply is Relation,
            AddProductToCategory::AwaitInsert { .. } => reply is Relation,
            AddProductToCategory::AwaitUser { .. } => reply is User,
            AddProductToCategory::Finished => false,
        }
    }

    /// Users may add products they may change; the category is looked up first.
    pub fn start(auth_user: &'a AuthUser, category_id: i64, product_id: i64) -> (r: (
        AddProductToCategory<'a>,
        Action<'a, ProductWithUser>,
    ))
        ensures
            auth_user.role.rank() >= 1 ==> r.0 == (AddProductToCategory::AwaitCategory {
                auth_user,
                category_id,
                product_id,
            }) && r.1 == Action::<'a, ProductWithUser>::Run(Query::CategoryById(category_id)),
            auth_user.role.rank() < 1 ==> fails_with(r.1, ErrorView::Forbidden),
            keeps_pace(r.1, |rep: Reply| r.0.awaits(rep)),
    {
        if !auth_user.role.has_user_permission() {
            return (AddProductToCategory::Finished, Action::Done(Err(ErrorsEnum::Forbidden)));
        }
        (
            AddProductToCategory::AwaitCategory { auth_user, category_id, product_id },
            Action::Run(Query::CategoryById(category_id)),
        )
    }

    /// The category and the product must exist, the user must be allowed to
    /// change the product, and the product must not be in the category yet;
    /// then the relation is inserted and the product is returned with its owner.
    pub fn step(self, reply: Reply) -> (r: (AddProductToCategory<'a>, Action<'a, ProductWithUser>))
        requires
            self.awaits(reply),
        ensures
            match (self, reply) {
                (AddProductToCategory::AwaitCategory { auth_user, category_id, product_id }, Reply::Category(c)) => match c {
                    Err(_) => fails_with(r.1, ErrorView::NotFound(CATEGORY_NOT_FOUND_MSG@)),
                    Ok(_) => r.0 == (AddProductToCategory::AwaitProduct {
                        auth_user,
                        category_id,
                        product_id,
                    }) && r.1 == Action::<'a, ProductWithUser>::Run(Query::ProductById(product_id)),
                },
                (AddProductToCategory::AwaitProduct { auth_user, category_id, product_id }, Reply::Product(p)) => match p {
                    Err(_) => fails_with(r.1, ErrorView::NotFound(PRODUCT_NOT_FOUND_MSG@)),
                    Ok(product) => if may_mutate(*auth_user, product) {
                        r.0 == (AddProductToCategory::AwaitRelation { product, category_id, product_id })
                            && r.1 == Action::<'a, ProductWithUser>::Run(
                            Query::RelationOf(category_id, product_id),
                        )
                    } else {
                        fails_with(r.1, ErrorView::Forbidden)
                    },
                },
                (AddProductToCategory::AwaitRelation { product, category_id, product_id }, Reply::Relation(rel)) => match rel {
                    Ok(_) => fails_with(
                        r.1,
                        ErrorView::ProductCategoryError(
                            product_category_msg(
                                "product '"@,
                                product_id,
                                "' is already in category '"@,
                                category_id,
                            ),
                        ),
                    ),
                    Err(_) => r.0 == (AddProductToCategory::AwaitInsert { product, category_id, product_id })
                        && r.1 == Action::<'a, ProductWithUser>::Run(
                        Query::AddRelation(
                            ProductCategoryRelation { productid: product_id, categoryid: category_id },
                        ),
                    ),
                },
                (AddProductToCategory::AwaitInsert { product, category_id, product_id }, Reply::Relation(rel)) => match rel {
                    Err(_) => fails_with(
                        r.1,
                        ErrorView::CreationError(
                            product_category_msg(
                                "error adding product '"@,
                                product_id,
                                "' to category '"@,
                                category_id,
                            ),
                        ),
                    ),
                    Ok(_) => r.0 == (AddProductToCategory::AwaitUser { product }) && r.1 == Action::<
                        'a,
                        ProductWithUser,
                    >::Run(Query::UserById(product.userid)),
                },
                (AddProductToCategory::AwaitUser { product }, Reply::User(u)) => match u {
                    Err(_) => fails_with(r.1, ErrorView::NotFound(USER_NOT_FOUND_MSG@)),
                    Ok(user) => succeeds_with(r.1, ProductWithUser { product, user }),
                },
                _ => false,
            },
            keeps_pace(r.1, |rep: Reply| r.0.awaits(rep)),
    {
        match (self, reply) {
            (AddProductToCategory::AwaitCategory { auth_user, category_id, product_id }, Reply::Category(c)) => {
                match c {
                    Err(_) => (AddProductToCategory::Finished, Action::Done(Err(not_found(CATEGORY_NOT_FOUND_MSG)))),
                    Ok(_) => (
                        AddProductToCategory::AwaitProduct { auth_user, category_id, product_id },
                        Action::Run(Query::ProductById(product_id)),
                    ),
                }
            },
            (AddProductToCategory::AwaitProduct { auth_user, category_id, product_id }, Reply::Product(p)) => {
                match p {
                    Err(_) => (AddProductToCategory::Finished, Action::Done(Err(not_found(PRODUCT_NOT_FOUND_MSG)))),
                    Ok(product) => {
                        if !can_mutate_product(auth_user, &product) {
                            return (AddProductToCategory::Finished, Action::Done(Err(ErrorsEnum::Forbidden)));
                        }
                        (
                            AddProductToCategory::AwaitRelation { product, category_id, product_id },
                            Action::Run(Query::RelationOf(category_id, product_id)),
                        )
                    },
                }
            },
            (AddProductToCategory::AwaitRelation { product, category_id, product_id }, Reply::Relation(rel)) => {
                match rel {
                    Ok(_) => (
                        AddProductToCategory::Finished,
                        Action::Done(
                            Err(
                                ErrorsEnum::ProductCategoryError(
                                    product_category_text(
                                        "product '",
                                        product_id,
                                        "' is already in category '",
                                        category_id,
                                    ),
                                ),
                            ),
                        ),
                    ),
                    Err(_) => (
                        AddProductToCategory::AwaitInsert { product, category_id, product_id },
                        Action::Run(
                            Query::AddRelation(
                                ProductCategoryRelation { productid: product_id, categoryid: category_id },
                            ),
                        ),
                    ),
                }
            },
            (AddProductToCategory::AwaitInsert { product, category_id, product_id }, Reply::Relation(rel)) => {
                match rel {
                    Err(_) => (
                        AddProductToCategory::Finished,
                        Action::Done(
                            Err(
                                ErrorsEnum::CreationError(
                                    product_category_text(
                                        "error adding product '",
                                        product_id,
                                        "' to category '",
                                        category_id,
                                    ),
                                ),
                            ),
                        ),
                    ),
                    Ok(_) => {
                        let userid = product.userid;
                        (AddProductToCategory::AwaitUser { product }, Action::Run(Query::UserById(userid)))
                    },
                }
            },
            (AddProductToCategory::AwaitUser { product }, Reply::User(u)) => match u {
                Err(_) => (AddProductToCategory::Finished, Action::Done(Err(not_found(USER_NOT_FOUND_MSG)))),
                Ok(user) => (AddProductToCategory::Finished, Action::Done(Ok(ProductWithUser::from(product, user)))),
            },
            (s, _) => (s, Action::Done(Err(ErrorsEnum::Forbidden))),
        }
    }
}


/// Removing a product from a category.
pub enum RemoveProductFromCategory<'a> {
    AwaitCategory { auth_user: &'a AuthUser, category_id: i64, product_id: i64 },
    AwaitProduct { auth_user: &'a AuthUser, category_id: i64, product_id: i64 },
    AwaitRelation { category_id: i64, product_id: i64 },
    AwaitRemoval { category_id: i64, product_id: i64 },
    Finished,
}

impl<'a> RemoveProductFromCategory<'a> {
    pub open spec fn awaits(&self, reply: Reply) -> bool {
        match self {
            RemoveProductFromCategory::AwaitCategory { .. } => reply is Category,
            RemoveProductFromCategory::AwaitProduct { .. } => reply is Product,
            RemoveProductFromCategory::AwaitRelation { .. } => reply is Relation,
            RemoveProductFromCategory::AwaitRemoval { .. } => reply is Count,
            RemoveProductFromCategory::Finished => false,
        }
    }

    /// Users may remove products they may change; the category is looked up first.
    pub fn start(auth_user: &'a AuthUser, category_id: i64, product_id: i64) -> (r: (
        RemoveProductFromCategory<'a>,
        Action<'a, ()>,
    ))
        ensures
            auth_user.role.rank() >= 1 ==> r.0 == (RemoveProductFromCategory::AwaitCategory {
                auth_user,
                category_id,
                product_id,
            }) && r.1 == Action::<'a, ()>::Run(Query::CategoryById(category_id)),
            auth_user.role.rank() < 1 ==> fails_with(r.1, ErrorView::Forbidden),
            keeps_pace(r.1, |rep: Reply| r.0.awaits(rep)),
    {
        if !auth_user.role.has_user_permission() {
            return (RemoveProductFromCategory::Finished, Action::Done(Err(ErrorsEnum::Forbidden)));
        }
        (
            RemoveProductFromCategory::AwaitCategory { auth_user, category_id, product_id },
            Action::Run(Query::CategoryById(category_id)),
        )
    }

    /// The category and the product must exist, the user must be allowed to
    /// change the product, and the product must be in the category; then the
    /// relation is deleted, which must remove a row.
    pub fn step(self, reply: Reply) -> (r: (RemoveProductFromCategory<'a>, Action<'a, ()>))
        requires
            self.awaits(reply),
        ensures
            match (self, reply) {
                (RemoveProductFromCategory::AwaitCategory { auth_user, category_id, product_id }, Reply::Category(c)) => match c {
                    Err(_) => fails_with(r.1, ErrorView::NotFound(CATEGORY_NOT_FOUND_MSG@)),
                    Ok(_) => r.0 == (RemoveProductFromCategory::AwaitProduct {
                        auth_user,
                        category_id,
                        product_id,
                    }) && r.1 == Action::<'a, ()>::Run(Query::ProductById(product_id)),
                },
                (RemoveProductFromCategory::AwaitProduct { auth_user, category_id, product_id }, Reply::Product(p)) => match p {
                    Err(_) => fails_with(r.1, ErrorView::NotFound(PRODUCT_NOT_FOUND_MSG@)),
                    Ok(product) => if may_mutate(*auth_user, product) {
                        r.0 == (RemoveProductFromCategory::AwaitRelation { category_id, product_id })
                            && r.1 == Action::<'a, ()>::Run(Query::RelationOf(category_id, product_id))
                    } else {
                        fails_with(r.1, ErrorView::Forbidden)
                    },
                },
                (RemoveProductFromCategory::AwaitRelation { category_id, product_id }, Reply::Relation(rel)) => match rel {
                    Err(_) => fails_with(
                        r.1,
                        ErrorView::ProductCategoryError(
                            product_category_msg(
                                "product '"@,
                                product_id,
                                "' is not in category '"@,
                                category_id,
                            ),
                        ),
                    ),
                    Ok(_) => r.0 == (RemoveProductFromCategory::AwaitRemoval { category_id, product_id })
                        && r.1 == Action::<'a, ()>::Run(
                        Query::RemoveRelation(
                            ProductCategoryRelation { productid: product_id, categoryid: category_id },
                        ),
                    ),
                },
                (RemoveProductFromCategory::AwaitRemoval { category_id, product_id }, Reply::Count(n)) => match n {
                    Ok(count) => if count == 0 {
                        fails_with(
                            r.1,
                            ErrorView::DeletionError(
                                product_category_msg(
                                    "error removing product '"@,
                                    product_id,
                                    "' from category '"@,
                                    category_id,
                                ),
                            ),
                        )
                    } else {
                        succeeds_with(r.1, ())
                    },
                    Err(_) => fails_with(
                        r.1,
                        ErrorView::CreationError(
                            product_category_msg(
                                "error removing product '"@,
                                product_id,
                                "' from category '"@,
                                category_id,
                            ),
                        ),
                    ),
                },
                _ => false,
            },
            keeps_pace(r.1, |rep: Reply| r.0.awaits(rep)),
    {
        match (self, reply) {
            (RemoveProductFromCategory::AwaitCategory { auth_user, category_id, product_id }, Reply::Category(c)) => {
                match c {
                    Err(_) => (RemoveProductFromCategory::Finished, Action::Done(Err(not_found(CATEGORY_NOT_FOUND_MSG)))),
                    Ok(_) => (
                        RemoveProductFromCategory::AwaitProduct { auth_user, category_id, product_id },
                        Action::Run(Query::ProductById(product_id)),
                    ),
                }
            },
            (RemoveProductFromCategory::AwaitProduct { auth_user, category_id, product_id }, Reply::Product(p)) => {
                match p {
                    Err(_) => (RemoveProductFromCategory::Finished, Action::Done(Err(not_found(PRODUCT_NOT_FOUND_MSG)))),
                    Ok(product) => {
                        if !can_mutate_product(auth_user, &product) {
                            return (RemoveProductFromCategory::Finished, Action::Done(Err(ErrorsEnum::Forbidden)));
                        }
                        (
                            RemoveProductFromCategory::AwaitRelation { category_id, product_id },
                            Action::Run(Query::RelationOf(category_id, product_id)),
                        )
                    },
                }
            },
            (RemoveProductFromCategory::AwaitRelation { category_id, product_id }, Reply::Relation(rel)) => {
                match rel {
                    Err(_) => (
                        RemoveProductFromCategory::Finished,
                        Action::Done(
                            Err(
                                ErrorsEnum::ProductCategoryError(
                                    product_category_text(
                                        "product '",
                                        product_id,
                                        "' is not in category '",
                                        category_id,
                                    ),
                                ),
                            ),
                        ),
                    ),
                    Ok(_) => (
                        RemoveProductFromCategory::AwaitRemoval { category_id, product_id },
                        Action::Run(
                            Query::RemoveRelation(
                                ProductCategoryRelation { productid: product_id, categoryid: category_id },
                            ),
                        ),
                    ),
                }
            },
            (RemoveProductFromCategory::AwaitRemoval { category_id, product_id }, Reply::Count(n)) => {
                match n {
                    Ok(count) => {
                        if count == 0 {
                            return (
                                RemoveProductFromCategory::Finished,
                                Action::Done(
                                    Err(
                                        ErrorsEnum::DeletionError(
                                            product_category_text(
                                                "error removing product '",
                                                product_id,
                                                "' from category '",
                                                category_id,
                                            ),
                                        ),
                                    ),
                                ),
                            );
                        }
                        (RemoveProductFromCategory::Finished, Action::Done(Ok(())))
                    },
                    Err(_) => (
                        RemoveProductFromCategory::Finished,
                        Action::Done(
                            Err(
                                ErrorsEnum::CreationError(
                                    product_category_text(
                                        "error removing product '",
                                        product_id,
                                        "' from category '",
                                        category_id,
                                    ),
                                ),
                            ),
                        ),
                    ),
                }
            },
            (s, _) => (s, Action::Done(Err(ErrorsEnum::Forbidden))),
        }
    }
}

} // verus!
