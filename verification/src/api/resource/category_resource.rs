//! Categories as they are returned to clients, with their links.

use vstd::prelude::*;
use crate::api::resource::relation::{hal_href, relation_pairs, HalLink, Relation};
use crate::entity::category::Category;
use crate::text::int_decimal;

verus! {

/// The address of a category.
pub open spec fn category_href(base_url: Seq<char>, id: i64) -> Seq<char> {
    base_url + "/categories/"@ + int_decimal(id as int)
}

/// The address of a category's subcategories.
pub open spec fn subcategories_href(base_url: Seq<char>, id: i64) -> Seq<char> {
    category_href(base_url, id) + "/subcategories"@
}

/// The address of a category's products.
pub open spec fn products_href(base_url: Seq<char>, id: i64) -> Seq<char> {
    category_href(base_url, id) + "/products"@
}

/// The links of a category: itself, its parent if it has one, its
/// subcategories, and its products if it has any.
pub open spec fn spec_category_links(
    base_url: Seq<char>,
    id: i64,
    parentid: Option<i64>,
    has_products: bool,
) -> Seq<(Seq<char>, Seq<char>)> {
    let with_self = seq![("self"@, category_href(base_url, id))];
    let with_parent = match parentid {
        Some(p) => with_self.push(("parent"@, category_href(base_url, p))),
        None => with_self,
    };
    let with_sub = with_parent.push(("subcategories"@, subcategories_href(base_url, id)));
    if has_products {
        with_sub.push(("products"@, products_href(base_url, id)))
    } else {
        with_sub
    }
}

fn category_url(base_url: &str, id: i64) -> (s: String)
    ensures
        s@ == category_href(base_url@, id),
{
    let mut url = crate::text::to_owned_string(base_url);
    crate::text::push_str(&mut url, "/categories/");
    let id_s = crate::text::i64_to_string(id);
    crate::text::push_str(&mut url, id_s.as_str());
    url
}

fn get_self_for_resource(base_url: &str, id: i64) -> (r: Relation)
    ensures
        r.rel@ == "self"@,
        r.href@ == category_href(base_url@, id),
{
    Relation { rel: crate::text::to_owned_string("self"), href: category_url(base_url, id) }
}

fn get_parent_for_resource(base_url: &str, parent_id: i64) -> (r: Relation)
    ensures
        r.rel@ == "parent"@,
        r.href@ == category_href(base_url@, parent_id),
{
    Relation { rel: crate::text::to_owned_string("parent"), href: category_url(base_url, parent_id) }
}

fn get_subcategories_for_resource(base_url: &str, id: i64) -> (r: Relation)
    ensures
        r.rel@ == "subcategories"@,
        r.href@ == subcategories_href(base_url@, id),
{
    let mut url = category_url(base_url, id);
    crate::text::push_str(&mut url, "/subcategories");
    Relation { rel: crate::text::to_owned_string("subcategories"), href: url }
}

fn get_products_for_resource(base_url: &str, id: i64) -> (r: Relation)
    ensures
        r.rel@ == "products"@,
        r.href@ == products_href(base_url@, id),
{
    let mut url = category_url(base_url, id);
    crate::text::push_str(&mut url, "/products");
    Relation { rel: crate::text::to_owned_string("products"), href: url }
}

/// A category with its links as a list of relations.
pub struct CategoryResource<'a> {
    pub name: &'a str,
    pub links: Vec<Relation>,
}

impl<'a> CategoryResource<'a> {
    /// The resource of a category whose addresses start with `base_url`;
    /// `has_products` tells whether a product link is included.
    pub fn from_entity(entity: &'a Category, base_url: &str, has_products: bool) -> (r: CategoryResource<'a>)
        ensures
            r.name@ == entity.name@,
            relation_pairs(r.links@) == spec_category_links(
                base_url@,
                entity.id,
                entity.parentid,
                has_products,
            ),
    {
        let mut links: Vec<Relation> = Vec::new();
        links.push(get_self_for_resource(base_url, entity.id));
        if let Some(parent_id) = entity.parentid {
            links.push(get_parent_for_resource(base_url, parent_id));
        }
        links.push(get_subcategories_for_resource(base_url, entity.id));
        if has_products {
            links.push(get_products_for_resource(base_url, entity.id));
        }
        assert(relation_pairs(links@) =~= spec_category_links(
            base_url@,
            entity.id,
            entity.parentid,
            has_products,
        ));
        CategoryResource { name: entity.name.as_str(), links }
    }

    /// The resources of a list of categories; `has_products[i]` tells whether
    /// the `i`-th category has products.
    pub fn map_from_entities(result: &'a Vec<Category>, base_url: &str, has_products: &Vec<bool>) -> (r: Vec<CategoryResource<'a>>)
        requires
            has_products.len() == result.len(),
        ensures
            r.len() == result.len(),
            forall|i: int|
                0 <= i < r.len() ==> {
                    &&& (#[trigger] r@[i]).name@ == result@[i].name@
                    &&& relation_pairs(r@[i].links@) == spec_category_links(
                        base_url@,
                        result@[i].id,
                        result@[i].parentid,
                        has_products@[i],
                    )
                },
    {
        let mut resources: Vec<CategoryResource<'a>> = Vec::new();
        let mut i: usize = 0;
        while i < result.len()
            invariant
                has_products.len() == result.len(),
                i <= result.len(),
                resources.len() == i,
                forall|j: int|
                    0 <= j < i ==> {
                        &&& (#[trigger] resources@[j]).name@ == result@[j].name@
                        &&& relation_pairs(resources@[j].links@) == spec_category_links(
                            base_url@,
                            result@[j].id,
                            result@[j].parentid,
                            has_products@[j],
                        )
                    },
            decreases result.len() - i,
        {
            resources.push(CategoryResource::from_entity(&result[i], base_url, has_products[i]));
            i = i + 1;
        }
        resources
    }
}

/// The HAL links of a category.
pub struct HalLinks {
    pub self_link: Option<HalLink>,
    pub parent: Option<HalLink>,
    pub subcategories: Option<HalLink>,
    pub products: Option<HalLink>,
}

/// A category with its links in the HAL format.
pub struct CategoryResourceHal {
    pub name: String,
    pub links: HalLinks,
}

/// `r` is the HAL resource of the category whose addresses start with
/// `base_url`, with a product link exactly when `has_products` holds.
pub open spec fn is_category_resource_hal(
    r: CategoryResourceHal,
    base_url: Seq<char>,
    entity: Category,
    has_products: bool,
) -> bool {
    &&& r.name@ == entity.name@
    &&& hal_href(r.links.self_link) == Some(category_href(base_url, entity.id))
    &&& hal_href(r.links.subcategories) == Some(subcategories_href(base_url, entity.id))
    &&& hal_href(r.links.parent) == match entity.parentid {
        Some(p) => Some(category_href(base_url, p)),
        None => None,
    }
    &&& hal_href(r.links.products) == if has_products {
        Some(products_href(base_url, entity.id))
    } else {
        None
    }
}

impl CategoryResourceHal {
    fn new(name: String) -> (r: CategoryResourceHal)
        ensures
            r.name@ == name@,
            r.links.self_link.is_none(),
            r.links.parent.is_none(),
            r.links.subcategories.is_none(),
            r.links.products.is_none(),
    {
        CategoryResourceHal {
            name,
            links: HalLinks { self_link: None, parent: None, subcategories: None, products: None },
        }
    }

    /// The HAL resource of a category whose addresses start with `base_url`;
    /// `has_products` tells whether a product link is included.
    pub fn from_entity(entity: &Category, base_url: &str, has_products: bool) -> (r: CategoryResourceHal)
        ensures
            r.name@ == entity.name@,
            hal_href(r.links.self_link) == Some(category_href(base_url@, entity.id)),
            hal_href(r.links.subcategories) == Some(subcategories_href(base_url@, entity.id)),
            hal_href(r.links.parent) == match entity.parentid {
                Some(p) => Some(category_href(base_url@, p)),
                None => None,
            },
            hal_href(r.links.products) == if has_products {
                Some(products_href(base_url@, entity.id))
            } else {
                None
            },
            is_category_resource_hal(r, base_url@, *entity, has_products),
    {
        let mut category_resource_hal = CategoryResourceHal::new(crate::text::to_owned_string(entity.name.as_str()));
        category_resource_hal.links.self_link = Some(HalLink { href: get_self_for_resource(base_url, entity.id).href });
        category_resource_hal.links.subcategories = Some(HalLink { href: get_subcategories_for_resource(base_url, entity.id).href });
        if let Some(parent_id) = entity.parentid {
            category_resource_hal.links.parent = Some(HalLink { href: get_parent_for_resource(base_url, parent_id).href });
        }
        if has_products {
            category_resource_hal.links.products = Some(HalLink { href: get_products_for_resource(base_url, entity.id).href });
        }
        category_resource_hal
    }
}

} // verus!
