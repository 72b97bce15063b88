//! The query of the products of a category and its subcategories, and the
//! joining of products with their owners.

use vstd::prelude::*;
use crate::api::controller::pagination_helper::Pagination;
use crate::entity::user::User;
use crate::service::query::DbError;
use crate::shared::entity::product::{
    product_sorts_to_sql_string,
    spec_sorts_result,
    spec_sorts_sql,
    Product,
    ProductSort,
    ProductWithUser,
    UserFieldName,
};

verus! {

/// The text of the product query before its sorts.
pub const PRODUCTS_FOR_CATEGORY_SQL_HEAD: &'static str = "select p.* from app_product p inner join app_product_category pc on p.id = pc.productid where (pc.categoryid = $1 or pc.categoryid in (select ac.id from (WITH RECURSIVE ALL_SUBCATEGORIES(ID, PARENTID) AS (select c.id, c.parentid from app_category c where c.parentid is null union all select c.id, c.parentid FROM ALL_SUBCATEGORIES inner join app_category c on ALL_SUBCATEGORIES.id = c.parentid) select id, parentid from ALL_SUBCATEGORIES ) ac where ac.parentid = $1))ORDER BY ";

/// The text of the product query after its sorts: the category is the first
/// parameter, the offset the second and the limit the third.
pub const PRODUCTS_FOR_CATEGORY_SQL_TAIL: &'static str = " OFFSET $2 LIMIT $3";

/// The query of the products of a category and of its direct subcategories,
/// ordered by the pagination's sorts, where `userid` names the user field.
/// Sorts that cannot be read make the query find nothing.
pub fn products_for_category_query(pagination: &Pagination) -> (r: Result<String, DbError>)
    ensures
        match r {
            Ok(q) => exists|v: Vec<ProductSort>|
                spec_sorts_result(Ok(v), pagination.spec_sorts(), UserFieldName::Userid) && q@
                    == PRODUCTS_FOR_CATEGORY_SQL_HEAD@ + spec_sorts_sql(v@) + PRODUCTS_FOR_CATEGORY_SQL_TAIL@,
            Err(e) => e is NotFound && exists|e2|
                spec_sorts_result(Err(e2), pagination.spec_sorts(), UserFieldName::Userid),
        },
{
    let sorts = match ProductSort::from_str_vec_product_category(pagination.get_unsanitized_sorts()) {
        Ok(sorts) => sorts,
        Err(_) => return Err(DbError::NotFound),
    };
    let ghost v = sorts;
    let sort = product_sorts_to_sql_string(sorts);
    let mut q = crate::text::to_owned_string(PRODUCTS_FOR_CATEGORY_SQL_HEAD);
    crate::text::push_str(&mut q, sort.as_str());
    crate::text::push_str(&mut q, PRODUCTS_FOR_CATEGORY_SQL_TAIL);
    assert(spec_sorts_result(Ok(v), pagination.spec_sorts(), UserFieldName::Userid));
    Ok(q)
}

/// The owner ids of the products, in order.
pub fn product_user_ids(products: &Vec<Product>) -> (ids: Vec<i64>)
    ensures
        ids@.len() == products@.len(),
        forall|i: int| 0 <= i < ids@.len() ==> ids@[i] == (#[trigger] products@[i]).userid,
{
    let mut ids: Vec<i64> = Vec::new();
    let mut i: usize = 0;
    while i < products.len()
        invariant
            i <= products.len(),
            ids@.len() == i,
            forall|j: int| 0 <= j < i ==> ids@[j] == (#[trigger] products@[j]).userid,
        decreases products.len() - i,
    {
        ids.push(products[i].userid);
        i = i + 1;
    }
    ids
}

/// `j` is the position of the first user with the id.
pub open spec fn first_user_at(users: Seq<User>, id: i64, j: int) -> bool {
    0 <= j < users.len() && users[j].id == id && forall|k: int| 0 <= k < j ==> (#[trigger] users[k]).id != id
}

/// No user has the id.
pub open spec fn no_user_with(users: Seq<User>, id: i64) -> bool {
    forall|k: int| 0 <= k < users.len() ==> (#[trigger] users[k]).id != id
}

fn find_user(users: &Vec<User>, id: i64) -> (r: Option<usize>)
    ensures
        match r {
            Some(j) => first_user_at(users@, id, j as int),
            None => no_user_with(users@, id),
        },
{
    let mut j: usize = 0;
    while j < users.len()
        invariant
            j <= users.len(),
            forall|k: int| 0 <= k < j ==> (#[trigger] users@[k]).id != id,
        decreases users.len() - j,
    {
        if users[j].id == id {
            return Some(j);
        }
        j = j + 1;
    }
    None
}

/// The products paired, in order, each with the first user whose id is its
/// owner id; a product without such a user makes the result not found.
pub fn pair_products_with_users(products: &Vec<Product>, users: &Vec<User>) -> (r: Result<Vec<ProductWithUser>, DbError>)
    ensures
        match r {
            Ok(v) => v@.len() == products@.len() && forall|i: int|
                0 <= i < v@.len() ==> {
                    &&& (#[trigger] v@[i]).product.same_as(products@[i])
                    &&& v@[i].product.id == products@[i].id
                    &&& v@[i].product.name@ == products@[i].name@
                    &&& v@[i].product.price_bits == products@[i].price_bits
                    &&& v@[i].product.userid == products@[i].userid
                    &&& v@[i].user.id == products@[i].userid
                    &&& exists|j: int|
                        first_user_at(users@, products@[i].userid, j) && v@[i].user.same_as(users@[j])
                },
            Err(e) => e is NotFound && exists|i: int|
                0 <= i < products@.len() && no_user_with(users@, (#[trigger] products@[i]).userid),
        },
{
    let mut result: Vec<ProductWithUser> = Vec::new();
    let mut i: usize = 0;
    while i < products.len()
        invariant
            i <= products.len(),
            result@.len() == i,
            forall|t: int|
                0 <= t < i ==> {
                    &&& (#[trigger] result@[t]).product.same_as(products@[t])
                    &&& result@[t].product.id == products@[t].id
                    &&& result@[t].product.name@ == products@[t].name@
                    &&& result@[t].product.price_bits == products@[t].price_bits
                    &&& result@[t].product.userid == products@[t].userid
                    &&& result@[t].user.id == products@[t].userid
                    &&& exists|j: int|
                        first_user_at(users@, products@[t].userid, j) && result@[t].user.same_as(users@[j])
                },
        decreases products.len() - i,
    {
        match find_user(users, products[i].userid) {
            None => {
                return Err(DbError::NotFound);
            },
            Some(j) => {
                let user = users[j].duplicate();
                let product = products[i].duplicate();
                let ghost before = result@;
                result.push(ProductWithUser::from(product, user));
                proof {
                    assert(result@ == before.push(ProductWithUser { product, user }));
                    assert forall|t: int| 0 <= t < i + 1 implies {
                        &&& (#[trigger] result@[t]).product.same_as(products@[t])
                        &&& result@[t].product.id == products@[t].id
                        &&& result@[t].product.name@ == products@[t].name@
                        &&& result@[t].product.price_bits == products@[t].price_bits
                        &&& result@[t].product.userid == products@[t].userid
                        &&& result@[t].user.id == products@[t].userid
                        &&& exists|jj: int|
                            first_user_at(users@, products@[t].userid, jj) && result@[t].user.same_as(
                                users@[jj],
                            )
                    } by {
                        if t == i {
                            assert(first_user_at(users@, products@[t].userid, j as int));
                            assert(result@[t].user.same_as(users@[j as int]));
                        } else {
                            assert(result@[t] == before[t]);
                        }
                    }
                }
            },
        }
        i = i + 1;
    }
    Ok(result)
}

} // verus!
