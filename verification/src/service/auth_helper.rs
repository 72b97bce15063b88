//! Who may change a product.

use vstd::prelude::*;
use crate::service::query::DbError;
use crate::shared::auth::auth_user::AuthUser;
use crate::shared::entity::product::Product;
use crate::shared::errors::error_enum::{ErrorView, ErrorsEnum, PRODUCT_NOT_FOUND_MSG};

verus! {

/// A user may change a product they own, and an administrator any product.
pub open spec fn may_mutate(auth_user: AuthUser, product: Product) -> bool {
    auth_user.role.rank() >= 2 || product.userid == auth_user.id
}

/// Administrators may change every product; plain users exactly the
/// products they own.
pub proof fn lemma_who_may_mutate(auth_user: AuthUser, product: Product)
    ensures
        auth_user.role == crate::security::role::Role::RoleAdmin ==> may_mutate(auth_user, product),
        auth_user.role == crate::security::role::Role::RoleUser ==> (may_mutate(auth_user, product)
            <==> product.userid == auth_user.id),
{
}

/// Whether the user may change the product.
pub fn can_mutate_product(auth_user: &AuthUser, product: &Product) -> (b: bool)
    ensures
        b == may_mutate(*auth_user, *product),
{
    let is_admin = auth_user.role.has_admin_permission();
    let is_owner = product.userid == auth_user.id;
    is_admin || is_owner
}

/// Whether the user may change the product a lookup by id found; a failed
/// lookup means the product is not found.
pub fn can_mutate_product_by_id(auth_user: &AuthUser, lookup: &Result<Product, DbError>) -> (r: Result<bool, ErrorsEnum>)
    ensures
        match lookup {
            Ok(p) => r == Ok::<bool, ErrorsEnum>(may_mutate(*auth_user, *p)),
            Err(_) => r matches Err(e) && e@ == ErrorView::NotFound(PRODUCT_NOT_FOUND_MSG@),
        },
{
    let is_admin = auth_user.role.has_admin_permission();
    let is_owner = match lookup {
        Ok(product) => product.userid == auth_user.id,
        Err(_) => return Err(ErrorsEnum::NotFound(crate::text::to_owned_string(PRODUCT_NOT_FOUND_MSG))),
    };
    Ok(is_admin || is_owner)
}

} // verus!
