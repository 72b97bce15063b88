//! What the resources of categories and products are built from: whether a
//! category has products is asked with a one-product page, and the product
//! resource is assembled from the lookups of its categories.

use vstd::prelude::*;
use crate::api::controller::pagination_helper::Pagination;
use crate::api::resource::category_resource::{is_category_resource_hal, CategoryResourceHal};
use crate::api::resource::product_resource::{product_href, ProductResource};
use crate::entity::category::Category;
use crate::shared::entity::product::ProductWithUser;

verus! {

/// The paging that asks whether a category has products: the first page, in
/// the default order, of a single product.
pub fn products_probe() -> (p: Pagination)
    ensures
        p.page.is_none(),
        p.size == Some(1i64),
        p.sort.is_none(),
{
    let mut p = Pagination::default();
    p.set_size(1);
    p
}

/// A category has products when the page `products_probe` asks for holds one.
pub fn has_products(page: &(Vec<ProductWithUser>, i64)) -> (b: bool)
    ensures
        b == (page.0.len() > 0),
{
    page.0.len() > 0
}

/// The HAL resources of the categories, in order; `has_products[i]` tells
/// whether the `i`-th category has products.
pub fn category_resources_hal(categories: &Vec<Category>, has_products: &Vec<bool>, base_url: &str) -> (r: Vec<
    CategoryResourceHal,
>)
    requires
        has_products.len() == categories.len(),
    ensures
        r.len() == categories.len(),
        forall|i: int|
            0 <= i < r.len() ==> is_category_resource_hal(
                #[trigger] r@[i],
                base_url@,
                categories@[i],
                has_products@[i],
            ),
{
    let mut r: Vec<CategoryResourceHal> = Vec::new();
    let mut i: usize = 0;
    while i < categories.len()
        invariant
            has_products.len() == categories.len(),
            i <= categories.len(),
            r.len() == i,
            forall|j: int|
                0 <= j < i ==> is_category_resource_hal(
                    #[trigger] r@[j],
                    base_url@,
                    categories@[j],
                    has_products@[j],
                ),
        decreases categories.len() - i,
    {
        r.push(CategoryResourceHal::from_entity(&categories[i], base_url, has_products[i]));
        i = i + 1;
    }
    r
}

/// The resource of a product from the categories it belongs to and whether
/// each of them has products: the categories' HAL resources, left out when
/// there are none, with the product's name, price, owner and link.
pub fn product_resource_from_lookups(
    product: &ProductWithUser,
    categories: &Vec<Category>,
    has_products: &Vec<bool>,
    base_url: &str,
) -> (r: ProductResource)
    requires
        has_products.len() == categories.len(),
    ensures
        r.name@ == product.product.name@,
        r.currency@ == "EUR"@,
        r.price_bits == product.product.price_bits,
        r.owner@ == product.user.username@,
        r.links.self_link.href@ == product_href(base_url@, product.product.id),
        categories.len() == 0 ==> r.categories.is_none(),
        categories.len() > 0 ==> (r.categories matches Some(v) && v.len() == categories.len()
            && forall|i: int|
            0 <= i < v.len() ==> is_category_resource_hal(
                #[trigger] v@[i],
                base_url@,
                categories@[i],
                has_products@[i],
            )),
{
    let resources = category_resources_hal(categories, has_products, base_url);
    ProductResource::from_product(product, resources, base_url)
}

} // verus!
