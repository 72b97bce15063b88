//! Products and pages of products as they are returned to clients.

use vstd::prelude::*;
use crate::api::controller::pagination_helper::Pagination;
use crate::api::resource::category_resource::CategoryResourceHal;
use crate::api::resource::relation::{HalLink, Relation};
use crate::shared::entity::product::{Product, ProductWithUser};
use crate::text::int_decimal;

verus! {

/// Integer division rounding toward zero, as Rust's `/` on signed integers.
pub open spec fn trunc_div(a: int, b: int) -> int {
    if a >= 0 {
        a / b
    } else {
        -((-a) / b)
    }
}

/// The remainder that goes with `trunc_div`, as Rust's `%` on signed integers.
pub open spec fn trunc_rem(a: int, b: int) -> int {
    if a >= 0 {
        a % b
    } else {
        -((-a) % b)
    }
}

/// The number of pages of `size` elements that `total` elements fill: the
/// quotient, plus one when there is a remainder.
pub open spec fn spec_total_pages(total: int, size: int) -> int {
    trunc_div(total, size) + if trunc_rem(total, size) != 0 { 1int } else { 0int }
}

/// For a count of zero or more, the number of pages is the least number of
/// pages of `size` elements that holds all elements.
pub proof fn lemma_total_pages_is_ceiling(total: int, size: int)
    requires
        total >= 0,
        size >= 1,
    ensures
        spec_total_pages(total, size) >= 0,
        spec_total_pages(total, size) * size >= total,
        total > 0 ==> (spec_total_pages(total, size) - 1) * size < total,
        total == 0 ==> spec_total_pages(total, size) == 0,
{
    let q = total / size;
    let r = total % size;
    assert(total == q * size + r && 0 <= r < size) by (nonlinear_arith)
        requires
            size >= 1,
            q == total / size,
            r == total % size,
    ;
    assert(q >= 0) by (nonlinear_arith)
        requires
            total >= 0,
            size >= 1,
            q == total / size,
    ;
    if r != 0 {
        assert((q + 1) * size >= total) by (nonlinear_arith)
            requires
                total == q * size + r,
                r < size,
        ;
        assert(q * size < total);
    } else {
        assert(q * size == total);
        if total > 0 {
            assert((q - 1) * size < total) by (nonlinear_arith)
                requires
                    total == q * size,
                    size >= 1,
            ;
        } else {
            assert(q == 0) by (nonlinear_arith)
                requires
                    total == q * size,
                    size >= 1,
                    total == 0,
            ;
        }
    }
}

/// A page (numbered from zero) starts inside the list, at offset
/// `page * size`, exactly when its number is below the number of pages.
pub proof fn lemma_page_starts_within_list(total: int, size: int, page: int)
    requires
        total >= 0,
        size >= 1,
        page >= 0,
    ensures
        page * size < total <==> page < spec_total_pages(total, size),
{
    lemma_total_pages_is_ceiling(total, size);
    let t = spec_total_pages(total, size);
    if page < t {
        assert(page * size <= (t - 1) * size) by (nonlinear_arith)
            requires
                page <= t - 1,
                size >= 1,
        ;
    } else {
        assert(page * size >= t * size) by (nonlinear_arith)
            requires
                page >= t,
                size >= 1,
        ;
    }
}

/// Paging information of a list of products.
pub struct Page {
    pub size: i64,
    pub total_elements: i64,
    pub total_pages: i64,
    pub number: i64,
}

impl Page {
    pub fn new(pagination: &Pagination, total_elements: i64) -> (p: Page)
        ensures
            p.size == pagination.spec_size(),
            p.total_elements == total_elements,
            p.total_pages == spec_total_pages(total_elements as int, pagination.spec_size() as int),
            p.number == pagination.spec_page(),
    {
        let size = pagination.get_size();
        let sub_total = total_elements % size;
        let quotient = total_elements / size;
        let total_pages = if sub_total != 0 {
            proof {
                let a = total_elements as int;
                let b = size as int;
                if a >= 0 {
                    assert(a / b <= a / 2) by (nonlinear_arith)
                        requires
                            a >= 0,
                            b >= 2,
                    ;
                } else {
                    assert((-a) / b <= (-a) / 2) by (nonlinear_arith)
                        requires
                            -a >= 0,
                            b >= 2,
                    ;
                }
            }
            quotient + 1
        } else {
            quotient
        };
        Page { size, total_elements, total_pages, number: pagination.get_page() }
    }
}

/// The address of a product.
pub open spec fn product_href(base_url: Seq<char>, id: i64) -> Seq<char> {
    base_url + "/products/"@ + int_decimal(id as int)
}

/// The address of the page a request asked for: the base address, a slash,
/// and the matched request path.
pub open spec fn paginated_href(base_url: Seq<char>, match_info: Seq<char>) -> Seq<char> {
    base_url + "/"@ + match_info
}

fn get_self_link(product: &Product, base_url: &str) -> (r: Relation)
    ensures
        r.rel@ == "self"@,
        r.href@ == product_href(base_url@, product.id),
{
    let mut href = crate::text::to_owned_string(base_url);
    crate::text::push_str(&mut href, "/products/");
    let id_s = crate::text::i64_to_string(product.id);
    crate::text::push_str(&mut href, id_s.as_str());
    Relation { rel: crate::text::to_owned_string("self"), href }
}

fn get_paginated_self_link(base_url: &str, match_info: &str) -> (r: Relation)
    ensures
        r.rel@ == "self"@,
        r.href@ == paginated_href(base_url@, match_info@),
{
    let mut href = crate::text::to_owned_string(base_url);
    crate::text::push_str(&mut href, "/");
    crate::text::push_str(&mut href, match_info);
    Relation { rel: crate::text::to_owned_string("self"), href }
}

/// The HAL links of a product.
pub struct ProductHalLinks {
    pub self_link: HalLink,
}

impl ProductHalLinks {
    pub fn from_product(product: &Product, base_url: &str) -> (l: ProductHalLinks)
        ensures
            l.self_link.href@ == product_href(base_url@, product.id),
    {
        ProductHalLinks { self_link: HalLink { href: get_self_link(product, base_url).href } }
    }
}

/// The HAL links of a page of products.
pub struct ProductsHalLinks {
    pub self_link: HalLink,
}

impl ProductsHalLinks {
    pub fn new(base_url: &str, match_info: &str) -> (l: ProductsHalLinks)
        ensures
            l.self_link.href@ == paginated_href(base_url@, match_info@),
    {
        ProductsHalLinks { self_link: HalLink { href: get_paginated_self_link(base_url, match_info).href } }
    }
}

/// The currency every product price is returned in.
pub const RESOURCE_CURRENCY: &'static str = "EUR";

/// A product as returned to clients; the price is the bit pattern of the
/// stored double, in euros.
pub struct ProductResource {
    pub name: String,
    pub currency: String,
    pub price_bits: u64,
    pub categories: Option<Vec<CategoryResourceHal>>,
    pub owner: String,
    pub links: ProductHalLinks,
}

impl ProductResource {
    /// The resource of a product with the resources of its categories; the
    /// category list is left out when it is empty.
    pub fn from_product(product: &ProductWithUser, categories: Vec<CategoryResourceHal>, base_url: &str) -> (r: ProductResource)
        ensures
            r.name@ == product.product.name@,
            r.currency@ == "EUR"@,
            r.price_bits == product.product.price_bits,
            r.owner@ == product.user.username@,
            r.links.self_link.href@ == product_href(base_url@, product.product.id),
            categories.len() == 0 ==> r.categories.is_none(),
            categories.len() > 0 ==> r.categories == Some(categories),
    {
        let n = categories.len();
        let categories = if n > 0 { Some(categories) } else { None };
        ProductResource {
            name: crate::text::to_owned_string(product.product.name.as_str()),
            currency: crate::text::to_owned_string(RESOURCE_CURRENCY),
            price_bits: product.product.price_bits,
            categories,
            owner: crate::text::to_owned_string(product.user.username.as_str()),
            links: ProductHalLinks::from_product(&product.product, base_url),
        }
    }
}

/// The product resources of a page.
pub struct ProductResourceList {
    pub product_resource_list: Vec<ProductResource>,
}

/// A page of products with its links and paging information.
pub struct ProductsResource {
    pub embedded: Option<ProductResourceList>,
    pub links: ProductsHalLinks,
    pub page: Page,
}

impl ProductsResource {
    /// The page resource of the given product resources; the embedded list is
    /// left out when it is empty.
    pub fn new(
        products: Vec<ProductResource>,
        pagination: &Pagination,
        base_url: &str,
        match_info: &str,
        total_elements: i64,
    ) -> (r: ProductsResource)
        ensures
            products.len() == 0 ==> r.embedded.is_none(),
            products.len() > 0 ==> r.embedded == Some(ProductResourceList { product_resource_list: products }),
            r.links.self_link.href@ == paginated_href(base_url@, match_info@),
            r.page.size == pagination.spec_size(),
            r.page.total_elements == total_elements,
            r.page.total_pages == spec_total_pages(total_elements as int, pagination.spec_size() as int),
            r.page.number == pagination.spec_page(),
    {
        let n = products.len();
        let embedded = if n == 0 {
            None
        } else {
            Some(ProductResourceList { product_resource_list: products })
        };
        let links = ProductsHalLinks::new(base_url, match_info);
        let page = Page::new(pagination, total_elements);
        ProductsResource { embedded, links, page }
    }
}

} // verus!
