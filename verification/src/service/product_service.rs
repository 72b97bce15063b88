//! Products: listing, reading, creating, changing and deleting them.

use vstd::prelude::*;
use crate::api::controller::pagination_helper::Pagination;
use crate::service::auth_helper::{can_mutate_product_by_id, may_mutate};
use crate::service::currency_conversion_service::{needs_conversion, SRC_CURRENCY};
use crate::service::query::{fails_with, keeps_pace, succeeds_with, Action, DbError, Query, Reply};
use crate::shared::auth::auth_user::AuthUser;
use crate::shared::entity::product::{NewProduct, ProductWithUser, UpdateProduct};
use crate::shared::errors::error_enum::{ErrorView, ErrorsEnum, PRODUCT_NOT_FOUND_MSG};

verus! {

fn error_with(kind: u8, msg: &str) -> (e: ErrorsEnum)
    requires
        kind < 5,
    ensures
        kind == 0 ==> e@ == ErrorView::NotFound(msg@),
        kind == 1 ==> e@ == ErrorView::CreationError(msg@),
        kind == 2 ==> e@ == ErrorView::UpdateError(msg@),
        kind == 3 ==> e@ == ErrorView::DeletionError(msg@),
        kind == 4 ==> e@ == ErrorView::NoPropertyError(msg@),
{
    let m = crate::text::to_owned_string(msg);
    if kind == 0 {
        ErrorsEnum::NotFound(m)
    } else if kind == 1 {
        ErrorsEnum::CreationError(m)
    } else if kind == 2 {
        ErrorsEnum::UpdateError(m)
    } else if kind == 3 {
        ErrorsEnum::DeletionError(m)
    } else {
        ErrorsEnum::NoPropertyError(m)
    }
}

/// Listing products with their owners, page by page.
pub enum GetProductsWithUsers {
    AwaitPage,
    Finished,
}

impl GetProductsWithUsers {
    pub open spec fn awaits(&self, reply: Reply) -> bool {
        match self {
            GetProductsWithUsers::AwaitPage => reply is ProductPage,
            GetProductsWithUsers::Finished => false,
        }
    }

    /// Users may list products.
    pub fn start<'a>(auth_user: &AuthUser, pagination: &'a Pagination) -> (r: (
        GetProductsWithUsers,
        Action<'a, (Vec<ProductWithUser>, i64)>,
    ))
        ensures
            auth_user.role.rank() >= 1 ==> r.0 == GetProductsWithUsers::AwaitPage && r.1 == Action::<
                'a,
                (Vec<ProductWithUser>, i64),
            >::Run(Query::ProductsWithUsers(pagination)),
            auth_user.role.rank() < 1 ==> fails_with(r.1, ErrorView::Forbidden),
            keeps_pace(r.1, |rep: Reply| r.0.awaits(rep)),
    {
        if !auth_user.role.has_user_permission() {
            return (GetProductsWithUsers::Finished, Action::Done(Err(ErrorsEnum::Forbidden)));
        }
        (GetProductsWithUsers::AwaitPage, Action::Run(Query::ProductsWithUsers(pagination)))
    }

    /// The page read. A page that cannot be found stems from a sort that
    /// cannot be read; any other failure is a database error with the
    /// database's description.
    pub fn step<'a>(self, reply: Reply) -> (r: (GetProductsWithUsers, Action<'a, (Vec<ProductWithUser>, i64)>))
        requires
            self.awaits(reply),
        ensures
            match reply {
                Reply::ProductPage(Ok(page)) => succeeds_with(r.1, page),
                Reply::ProductPage(Err(DbError::NotFound)) => fails_with(
                    r.1,
                    ErrorView::NoPropertyError("There was a problem with the sort order"@),
                ),
                Reply::ProductPage(Err(DbError::Other(m))) => fails_with(r.1, ErrorView::DieselError(m@)),
                _ => false,
            },
            keeps_pace(r.1, |rep: Reply| r.0.awaits(rep)),
    {
        match reply {
            Reply::ProductPage(Ok(page)) => (GetProductsWithUsers::Finished, Action::Done(Ok(page))),
            Reply::ProductPage(Err(DbError::NotFound)) => (
                GetProductsWithUsers::Finished,
                Action::Done(Err(error_with(4, "There was a problem with the sort order"))),
            ),
            Reply::ProductPage(Err(DbError::Other(m))) => (
                GetProductsWithUsers::Finished,
                Action::Done(Err(ErrorsEnum::DieselError(m))),
            ),
            _ => (GetProductsWithUsers::Finished, Action::Done(Err(ErrorsEnum::Forbidden))),
        }
    }
}

/// Reading one product with its owner.
pub enum GetProductWithUserById {
    AwaitProduct,
    Finished,
}

impl GetProductWithUserById {
    pub open spec fn awaits(&self, reply: Reply) -> bool {
        match self {
            GetProductWithUserById::AwaitProduct => reply is ProductWithUser,
            GetProductWithUserById::Finished => false,
        }
    }

    /// Users may read a product.
    pub fn start<'a>(auth_user: &AuthUser, product_id: i64) -> (r: (GetProductWithUserById, Action<'a, ProductWithUser>))
        ensures
            auth_user.role.rank() >= 1 ==> r.0 == GetProductWithUserById::AwaitProduct && r.1
                == Action::<'a, ProductWithUser>::Run(Query::ProductWithUserById(product_id)),
            auth_user.role.rank() < 1 ==> fails_with(r.1, ErrorView::Forbidden),
            keeps_pace(r.1, |rep: Reply| r.0.awaits(rep)),
    {
        if !auth_user.role.has_user_permission() {
            return (GetProductWithUserById::Finished, Action::Done(Err(ErrorsEnum::Forbidden)));
        }
        (GetProductWithUserById::AwaitProduct, Action::Run(Query::ProductWithUserById(product_id)))
    }

    /// The product read, or not found.
    pub fn step<'a>(self, reply: Reply) -> (r: (GetProductWithUserById, Action<'a, ProductWithUser>))
        requires
            self.awaits(reply),
        ensures
            match reply {
                Reply::ProductWithUser(Ok(p)) => succeeds_with(r.1, p),
                _ => fails_with(r.1, ErrorView::NotFound(PRODUCT_NOT_FOUND_MSG@)),
            },
            keeps_pace(r.1, |rep: Reply| r.0.awaits(rep)),
    {
        match reply {
            Reply::ProductWithUser(Ok(p)) => (GetProductWithUserById::Finished, Action::Done(Ok(p))),
            _ => (GetProductWithUserById::Finished, Action::Done(Err(error_with(0, PRODUCT_NOT_FOUND_MSG)))),
        }
    }
}

/// Creating a product.
pub enum CreateProduct<'a> {
    AwaitConversion { new_product: NewProduct<'a> },
    AwaitInsert,
    Finished,
}

impl<'a> CreateProduct<'a> {
    pub open spec fn awaits(&self, reply: Reply) -> bool {
        match self {
            CreateProduct::AwaitConversion { .. } => reply is Converted,
            CreateProduct::AwaitInsert => reply is ProductWithUser,
            CreateProduct::Finished => false,
        }
    }

    /// Users may create products. A price given in another currency than
    /// euros is converted first; otherwise the product is inserted at once.
    pub fn start(auth_user: &AuthUser, new_product: NewProduct<'a>, currency: &'a str) -> (r: (
        CreateProduct<'a>,
        Action<'a, ProductWithUser>,
    ))
        ensures
            auth_user.role.rank() < 1 ==> fails_with(r.1, ErrorView::Forbidden),
            auth_user.role.rank() >= 1 && currency@ != SRC_CURRENCY@ ==> r.1 == Action::<
                'a,
                ProductWithUser,
            >::Run(Query::ConvertToEuro(currency, new_product.price_bits)) && r.0 == (
            CreateProduct::AwaitConversion { new_product }),
            auth_user.role.rank() >= 1 && currency@ == SRC_CURRENCY@ ==> r.0 == CreateProduct::<
                'a,
            >::AwaitInsert && r.1 == Action::<'a, ProductWithUser>::Run(
                Query::InsertProductWithUser(new_product),
            ),
            keeps_pace(r.1, |rep: Reply| r.0.awaits(rep)),
    {
        if !auth_user.role.has_user_permission() {
            return (CreateProduct::Finished, Action::Done(Err(ErrorsEnum::Forbidden)));
        }
        if needs_conversion(currency) {
            let price_bits = new_product.price_bits;
            return (
                CreateProduct::AwaitConversion { new_product },
                Action::Run(Query::ConvertToEuro(currency, price_bits)),
            );
        }
        (CreateProduct::AwaitInsert, Action::Run(Query::InsertProductWithUser(new_product)))
    }

    /// A failed conversion ends the operation with its error; a converted
    /// price replaces the given one before the product is inserted. The
    /// inserted product is the result, and a failed insert a creation error.
    pub fn step(self, reply: Reply) -> (r: (CreateProduct<'a>, Action<'a, ProductWithUser>))
        requires
            self.awaits(reply),
        ensures
            match (self, reply) {
                (CreateProduct::AwaitConversion { new_product }, Reply::Converted(c)) => match c {
                    Err(e) => r.1 matches Action::Done(Err(x)) && x == e,
                    Ok(price_bits) => r.0 == CreateProduct::<'a>::AwaitInsert && r.1 == Action::<
                        'a,
                        ProductWithUser,
                    >::Run(Query::InsertProductWithUser(NewProduct { price_bits, ..new_product })),
                },
                (CreateProduct::AwaitInsert, Reply::ProductWithUser(p)) => match p {
                    Ok(p) => succeeds_with(r.1, p),
                    Err(_) => fails_with(r.1, ErrorView::CreationError("error creating Product"@)),
                },
                _ => false,
            },
            keeps_pace(r.1, |rep: Reply| r.0.awaits(rep)),
    {
        match (self, reply) {
            (CreateProduct::AwaitConversion { new_product }, Reply::Converted(c)) => match c {
                Err(e) => (CreateProduct::Finished, Action::Done(Err(e))),
                Ok(price_bits) => {
                    let mut new_product = new_product;
                    new_product.price_bits = price_bits;
                    (CreateProduct::AwaitInsert, Action::Run(Query::InsertProductWithUser(new_product)))
                },
            },
            (CreateProduct::AwaitInsert, Reply::ProductWithUser(p)) => match p {
                Ok(p) => (CreateProduct::Finished, Action::Done(Ok(p))),
                Err(_) => (CreateProduct::Finished, Action::Done(Err(error_with(1, "error creating Product")))),
            },
            (s, _) => (s, Action::Done(Err(ErrorsEnum::Forbidden))),
        }
    }
}

/// Changing a product.
pub enum UpdateProductOp<'a> {
    AwaitConversion { auth_user: &'a AuthUser, update_product: UpdateProduct<'a>, product_id: i64 },
    AwaitProduct { auth_user: &'a AuthUser, update_product: UpdateProduct<'a>, product_id: i64 },
    AwaitUpdate,
    Finished,
}

impl<'a> UpdateProductOp<'a> {
    pub open spec fn awaits(&self, reply: Reply) -> bool {
        match self {
            UpdateProductOp::AwaitConversion { .. } => reply is Converted,
            UpdateProductOp::AwaitProduct { .. } => reply is Product,
            UpdateProductOp::AwaitUpdate => reply is ProductWithUser,
            UpdateProductOp::Finished => false,
        }
    }

    /// Users may change products they may change. A price given in another
    /// currency than euros is converted first; then the product is looked up.
    pub fn start(auth_user: &'a AuthUser, update_product: UpdateProduct<'a>, currency: &'a str, product_id: i64) -> (r: (
        UpdateProductOp<'a>,
        Action<'a, ProductWithUser>,
    ))
        ensures
            auth_user.role.rank() < 1 ==> fails_with(r.1, ErrorView::Forbidden),
            auth_user.role.rank() >= 1 && currency@ != SRC_CURRENCY@ ==> r.1 == Action::<
                'a,
                ProductWithUser,
            >::Run(Query::ConvertToEuro(currency, update_product.price_bits)) && r.0 == (
            UpdateProductOp::AwaitConversion { auth_user, update_product, product_id }),
            auth_user.role.rank() >= 1 && currency@ == SRC_CURRENCY@ ==> r.0 == (
            UpdateProductOp::AwaitProduct { auth_user, update_product, product_id }) && r.1
                == Action::<'a, ProductWithUser>::Run(Query::ProductById(product_id)),
            keeps_pace(r.1, |rep: Reply| r.0.awaits(rep)),
    {
        if !auth_user.role.has_user_permission() {
            return (UpdateProductOp::Finished, Action::Done(Err(ErrorsEnum::Forbidden)));
        }
        if needs_conversion(currency) {
            let price_bits = update_product.price_bits;
            return (
                UpdateProductOp::AwaitConversion { auth_user, update_product, product_id },
                Action::Run(Query::ConvertToEuro(currency, price_bits)),
            );
        }
        (UpdateProductOp::AwaitProduct { auth_user, update_product, product_id }, Action::Run(Query::ProductById(product_id)))
    }

    /// A failed conversion ends the operation with its error; a converted
    /// price replaces the given one. The product must exist and the user must
    /// be allowed to change it; the stored product is the result, and a
    /// failed update an update error.
    pub fn step(self, reply: Reply) -> (r: (UpdateProductOp<'a>, Action<'a, ProductWithUser>))
        requires
            self.awaits(reply),
        ensures
            match (self, reply) {
                (UpdateProductOp::AwaitConversion { auth_user, update_product, product_id }, Reply::Converted(c)) => match c {
                    Err(e) => r.1 matches Action::Done(Err(x)) && x == e,
                    Ok(price_bits) => r.0 == (UpdateProductOp::AwaitProduct {
                        auth_user,
                        update_product: UpdateProduct { price_bits, ..update_product },
                        product_id,
                    }) && r.1 == Action::<'a, ProductWithUser>::Run(Query::ProductById(product_id)),
                },
                (UpdateProductOp::AwaitProduct { auth_user, update_product, product_id }, Reply::Product(p)) => match p {
                    Err(_) => fails_with(r.1, ErrorView::NotFound(PRODUCT_NOT_FOUND_MSG@)),
                    Ok(product) => if may_mutate(*auth_user, product) {
                        r.0 == UpdateProductOp::<'a>::AwaitUpdate && r.1 == Action::<'a, ProductWithUser>::Run(
                            Query::UpdateProductWithUser(update_product, product_id),
                        )
                    } else {
                        fails_with(r.1, ErrorView::Forbidden)
                    },
                },
                (UpdateProductOp::AwaitUpdate, Reply::ProductWithUser(p)) => match p {
                    Ok(p) => succeeds_with(r.1, p),
                    Err(_) => fails_with(r.1, ErrorView::UpdateError("error updating Product"@)),
                },
                _ => false,
            },
            keeps_pace(r.1, |rep: Reply| r.0.awaits(rep)),
    {
        match (self, reply) {
            (UpdateProductOp::AwaitConversion { auth_user, update_product, product_id }, Reply::Converted(c)) => {
                match c {
                    Err(e) => (UpdateProductOp::Finished, Action::Done(Err(e))),
                    Ok(price_bits) => {
                        let mut update_product = update_product;
                        update_product.price_bits = price_bits;
                        (
                            UpdateProductOp::AwaitProduct { auth_user, update_product, product_id },
                            Action::Run(Query::ProductById(product_id)),
                        )
                    },
                }
            },
            (UpdateProductOp::AwaitProduct { auth_user, update_product, product_id }, Reply::Product(p)) => {
                match can_mutate_product_by_id(auth_user, &p) {
                    Err(e) => (UpdateProductOp::Finished, Action::Done(Err(e))),
                    Ok(false) => (UpdateProductOp::Finished, Action::Done(Err(ErrorsEnum::Forbidden))),
                    Ok(true) => (
                        UpdateProductOp::AwaitUpdate,
                        Action::Run(Query::UpdateProductWithUser(update_product, product_id)),
                    ),
                }
            },
            (UpdateProductOp::AwaitUpdate, Reply::ProductWithUser(p)) => match p {
                Ok(p) => (UpdateProductOp::Finished, Action::Done(Ok(p))),
                Err(_) => (UpdateProductOp::Finished, Action::Done(Err(error_with(2, "error updating Product")))),
            },
            (s, _) => (s, Action::Done(Err(ErrorsEnum::Forbidden))),
        }
    }
}

/// Deleting a product.
pub enum DeleteProduct<'a> {
    AwaitProduct { auth_user: &'a AuthUser, product_id: i64 },
    AwaitDeletion,
    Finished,
}

impl<'a> DeleteProduct<'a> {
    pub open spec fn awaits(&self, reply: Reply) -> bool {
        match self {
            DeleteProduct::AwaitProduct { .. } => reply is Product,
            DeleteProduct::AwaitDeletion => reply is Count,
            DeleteProduct::Finished => false,
        }
    }

    /// Users may delete products they may change; the product is looked up first.
    pub fn start(auth_user: &'a AuthUser, product_id: i64) -> (r: (DeleteProduct<'a>, Action<'a, usize>))
        ensures
            auth_user.role.rank() >= 1 ==> r.0 == (DeleteProduct::AwaitProduct { auth_user, product_id })
                && r.1 == Action::<'a, usize>::Run(Query::ProductById(product_id)),
            auth_user.role.rank() < 1 ==> fails_with(r.1, ErrorView::Forbidden),
            keeps_pace(r.1, |rep: Reply| r.0.awaits(rep)),
    {
        if !auth_user.role.has_user_permission() {
            return (DeleteProduct::Finished, Action::Done(Err(ErrorsEnum::Forbidden)));
        }
        (DeleteProduct::AwaitProduct { auth_user, product_id }, Action::Run(Query::ProductById(product_id)))
    }

    /// The product must exist and the user must be allowed to change it; the
    /// number of rows deleted is the result, deleting none means the product
    /// is not found, and a failed statement is a deletion error.
    pub fn step(self, reply: Reply) -> (r: (DeleteProduct<'a>, Action<'a, usize>))
        requires
            self.awaits(reply),
        ensures
            match (self, reply) {
                (DeleteProduct::AwaitProduct { auth_user, product_id }, Reply::Product(p)) => match p {
                    Err(_) => fails_with(r.1, ErrorView::NotFound(PRODUCT_NOT_FOUND_MSG@)),
                    Ok(product) => if may_mutate(*auth_user, product) {
                        r.0 == DeleteProduct::<'a>::AwaitDeletion && r.1 == Action::<'a, usize>::Run(
                            Query::DeleteProduct(product_id),
                        )
                    } else {
                        fails_with(r.1, ErrorView::Forbidden)
                    },
                },
                (DeleteProduct::AwaitDeletion, Reply::Count(n)) => match n {
                    Ok(count) => if count == 0 {
                        fails_with(r.1, ErrorView::NotFound(PRODUCT_NOT_FOUND_MSG@))
                    } else {
                        succeeds_with(r.1, count)
                    },
                    Err(_) => fails_with(r.1, ErrorView::DeletionError("error deleting Product"@)),
                },
                _ => false,
            },
            keeps_pace(r.1, |rep: Reply| r.0.awaits(rep)),
    {
        match (self, reply) {
            (DeleteProduct::AwaitProduct { auth_user, product_id }, Reply::Product(p)) => {
                match can_mutate_product_by_id(auth_user, &p) {
                    Err(e) => (DeleteProduct::Finished, Action::Done(Err(e))),
                    Ok(false) => (DeleteProduct::Finished, Action::Done(Err(ErrorsEnum::Forbidden))),
                    Ok(true) => (DeleteProduct::AwaitDeletion, Action::Run(Query::DeleteProduct(product_id))),
                }
            },
            (DeleteProduct::AwaitDeletion, Reply::Count(n)) => match n {
                Ok(count) => {
                    if count == 0 {
                        return (DeleteProduct::Finished, Action::Done(Err(error_with(0, PRODUCT_NOT_FOUND_MSG))));
                    }
                    (DeleteProduct::Finished, Action::Done(Ok(count)))
                },
                Err(_) => (DeleteProduct::Finished, Action::Done(Err(error_with(3, "error deleting Product")))),
            },
            (s, _) => (s, Action::Done(Err(ErrorsEnum::Forbidden))),
        }
    }
}

} // verus!
