//! The sorts and the paging window of a product list query.

use vstd::prelude::*;
use crate::api::controller::pagination_helper::Pagination;
use crate::service::query::DbError;
use crate::shared::entity::product::{spec_sorts_result, ProductSort, UserFieldName};
use crate::text::str_views;

verus! {

/// The sorts of a product list query; sorts that cannot be read make the
/// query find nothing.
pub fn product_sorts(pagination: &Pagination) -> (r: Result<Vec<ProductSort>, DbError>)
    ensures
        match r {
            Ok(v) => spec_sorts_result(Ok(v), pagination.spec_sorts(), UserFieldName::User),
            Err(e) => e is NotFound && exists|e2| spec_sorts_result(Err(e2), pagination.spec_sorts(), UserFieldName::User),
        },
{
    let sorts = pagination.get_unsanitized_sorts();
    match ProductSort::from_str_vec(sorts) {
        Ok(v) => Ok(v),
        Err(_) => Err(DbError::NotFound),
    }
}

/// The number of rows a page skips: the page number times the page size.
pub fn page_offset(pagination: &Pagination) -> (r: i64)
    requires
        pagination.spec_page() * pagination.spec_size() <= i64::MAX,
    ensures
        r == pagination.spec_page() * pagination.spec_size(),
{
    let page = pagination.get_page();
    let size = pagination.get_size();
    proof {
        assert(page * size >= 0) by (nonlinear_arith)
            requires
                page >= 0,
                size >= 1,
        ;
    }
    page * size
}

} // verus!
