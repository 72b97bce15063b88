use e_commerce::service::resource_mapper::{
    category_resources_hal, has_products, product_resource_from_lookups, products_probe,
};
use e_commerce::api::controller::pagination::Pagination as SinglePagination;
use e_commerce::api::controller::pagination_helper::{
    Pagination, DEFAULT_PAGE_SIZE, DEFAULT_SORT, MAX_PAGE_SIZE,
};
use e_commerce::api::resource::category_resource::{CategoryResource, CategoryResourceHal};
use e_commerce::api::resource::product_resource::{
    Page, ProductResource, ProductsHalLinks, ProductsResource, RESOURCE_CURRENCY,
};
use e_commerce::entity::category::Category;
use e_commerce::entity::user::User;
use e_commerce::outbound::dao::product_repository::{page_offset, product_sorts};
use e_commerce::service::query::DbError;
use e_commerce::shared::entity::product::{FieldOptions, OrderOptions, Product, ProductSort, ProductWithUser};

fn paging(page: Option<i64>, size: Option<i64>, sort: Option<Vec<&str>>) -> Pagination {
    Pagination { page, size, sort: sort.map(|v| v.into_iter().map(|s| s.to_string()).collect()) }
}

fn category(id: i64, parentid: Option<i64>) -> Category {
    Category { id, name: format!("cat{}", id), parentid }
}

#[test]
fn default_paging() {
    let p = Pagination::default();
    assert_eq!((p.get_page(), p.get_size()), (0, 20));
    assert_eq!(p.get_unsanitized_sorts(), vec![DEFAULT_SORT]);
    assert_eq!(p.as_str(), "page=0&size=20");
}

#[test]
fn paging_is_sanitized() {
    let p = paging(Some(-3), Some(0), None);
    assert_eq!((p.get_page(), p.get_size()), (0, DEFAULT_PAGE_SIZE));
    let p = paging(Some(4), Some(5000), None);
    assert_eq!((p.get_page(), p.get_size()), (4, MAX_PAGE_SIZE));
    let p = paging(Some(2), Some(-7), None);
    assert_eq!(p.get_size(), 20);
    let p = paging(None, Some(1), None);
    assert_eq!(p.get_size(), 1);
}

#[test]
fn set_size_then_get_size() {
    let mut p = paging(Some(3), None, Some(vec!["name"]));
    p.set_size(9999);
    assert_eq!(p.size, Some(2000));
    assert_eq!(p.get_size(), 2000);
    p.set_size(0);
    assert_eq!(p.get_size(), 20);
    p.set_size(35);
    assert_eq!((p.get_size(), p.get_page()), (35, 3));
    assert_eq!(p.get_unsanitized_sorts(), vec!["name"]);
}

#[test]
fn query_string_of_paging() {
    let p = paging(Some(-2), Some(0), Some(vec!["name,desc", "price"]));
    assert_eq!(p.as_str(), "page=-2&size=0&sort=name,desc,price");
    let p = paging(Some(1), None, Some(vec![]));
    assert_eq!(p.as_str(), "page=1&size=20&sort=");
}

#[test]
fn single_sort_paging() {
    let p = SinglePagination::default();
    assert_eq!((p.get_page(), p.get_size(), p.get_unsanitized_sort()), (0, 20, "id,asc"));
    let p = SinglePagination { page: Some(-1), size: Some(3000), sort: Some("name,desc".to_string()) };
    assert_eq!((p.get_page(), p.get_size(), p.get_unsanitized_sort()), (0, 2000, "name,desc"));
}

#[test]
fn page_count_rounds_up() {
    let p = paging(Some(1), Some(10), None);
    let page = Page::new(&p, 25);
    assert_eq!((page.size, page.total_elements, page.total_pages, page.number), (10, 25, 3, 1));
    assert_eq!(Page::new(&p, 30).total_pages, 3);
    assert_eq!(Page::new(&p, 0).total_pages, 0);
    assert_eq!(Page::new(&p, 1).total_pages, 1);
    let one = paging(None, Some(1), None);
    assert_eq!(Page::new(&one, 7).total_pages, 7);
}

#[test]
fn page_offsets_tile_the_list() {
    let p = paging(Some(0), Some(10), None);
    assert_eq!(page_offset(&p), 0);
    let p = paging(Some(2), Some(10), None);
    assert_eq!(page_offset(&p), 20);
    // the page starts inside the list exactly when its number is below the page count
    for total in [0i64, 1, 19, 20, 21] {
        for n in 0..5i64 {
            let p = paging(Some(n), Some(10), None);
            assert_eq!(page_offset(&p) < total, n < Page::new(&p, total).total_pages);
        }
    }
}

#[test]
fn sorts_of_the_repository() {
    let p = paging(None, None, None);
    match product_sorts(&p) {
        Ok(v) => assert_eq!(v, vec![ProductSort { field: FieldOptions::Id, order: OrderOptions::Asc }]),
        Err(_) => panic!("default sort must be read"),
    }
    let p = paging(None, None, Some(vec!["id", "bogus"]));
    assert!(matches!(product_sorts(&p), Err(DbError::NotFound)));
}

#[test]
fn category_links() {
    let c = category(4, Some(2));
    let r = CategoryResource::from_entity(&c, "http://h", true);
    assert_eq!(r.name, "cat4");
    let pairs: Vec<(String, String)> = r.links.iter().map(|l| (l.rel.clone(), l.href.clone())).collect();
    assert_eq!(
        pairs,
        vec![
            ("self".to_string(), "http://h/categories/4".to_string()),
            ("parent".to_string(), "http://h/categories/2".to_string()),
            ("subcategories".to_string(), "http://h/categories/4/subcategories".to_string()),
            ("products".to_string(), "http://h/categories/4/products".to_string()),
        ]
    );
    let c = category(1, None);
    let r = CategoryResource::from_entity(&c, "", false);
    let rels: Vec<&str> = r.links.iter().map(|l| l.rel.as_str()).collect();
    assert_eq!(rels, vec!["self", "subcategories"]);
}

#[test]
fn category_list_links() {
    let cats = vec![category(1, None), category(-5, Some(1))];
    let r = CategoryResource::map_from_entities(&cats, "b", &vec![false, true]);
    assert_eq!(r.len(), 2);
    assert_eq!(r[0].links.len(), 2);
    assert_eq!(r[1].links.len(), 4);
    assert_eq!(r[1].links[0].href, "b/categories/-5");
    assert_eq!(r[1].links[3].href, "b/categories/-5/products");
}

#[test]
fn category_hal_links() {
    let r = CategoryResourceHal::from_entity(&category(8, None), "x", false);
    assert_eq!(r.name, "cat8");
    assert_eq!(r.links.self_link.as_ref().map(|l| l.href.as_str()), Some("x/categories/8"));
    assert_eq!(r.links.subcategories.as_ref().map(|l| l.href.as_str()), Some("x/categories/8/subcategories"));
    assert!(r.links.parent.is_none());
    assert!(r.links.products.is_none());
    let r = CategoryResourceHal::from_entity(&category(8, Some(3)), "x", true);
    assert_eq!(r.links.parent.as_ref().map(|l| l.href.as_str()), Some("x/categories/3"));
    assert_eq!(r.links.products.as_ref().map(|l| l.href.as_str()), Some("x/categories/8/products"));
}

#[test]
fn product_resources() {
    let pw = ProductWithUser::from(
        Product { id: 12, name: "desk".to_string(), price_bits: 99.5f64.to_bits(), userid: 3 },
        User { id: 3, username: "carl".to_string(), password: "h".to_string(), role: "USER".to_string() },
    );
    let r = ProductResource::from_product(&pw, vec![], "http://s");
    assert_eq!(r.name, "desk");
    assert_eq!(r.currency, RESOURCE_CURRENCY);
    assert_eq!(f64::from_bits(r.price_bits), 99.5);
    assert_eq!(r.owner, "carl");
    assert_eq!(r.links.self_link.href, "http://s/products/12");
    assert!(r.categories.is_none());
    let cats = vec![CategoryResourceHal::from_entity(&category(1, None), "http://s", true)];
    let r = ProductResource::from_product(&pw, cats, "http://s");
    assert_eq!(r.categories.as_ref().map(|c| c.len()), Some(1));

    let p = paging(Some(0), Some(2), None);
    let list = ProductsResource::new(vec![r], &p, "http://s", "products?page=0", 5);
    assert_eq!(list.links.self_link.href, "http://s/products?page=0");
    assert_eq!(list.embedded.map(|e| e.product_resource_list.len()), Some(1));
    assert_eq!((list.page.total_pages, list.page.number, list.page.size), (3, 0, 2));
    let empty = ProductsResource::new(vec![], &p, "a", "b", 0);
    assert!(empty.embedded.is_none());
    assert_eq!(ProductsHalLinks::new("a", "b").self_link.href, "a/b");
}

#[test]
fn resources_from_lookups() {
    let probe = products_probe();
    assert_eq!((probe.page, probe.size, probe.get_size(), probe.get_page()), (None, Some(1), 1, 0));
    assert!(probe.sort.is_none());
    assert!(!has_products(&(vec![], 5)));
    let pw = ProductWithUser::from(
        Product { id: 12, name: "desk".to_string(), price_bits: 99.5f64.to_bits(), userid: 3 },
        User { id: 3, username: "carl".to_string(), password: "h".to_string(), role: "USER".to_string() },
    );
    assert!(has_products(&(vec![ProductWithUser::from(pw.product.duplicate(), pw.user.duplicate())], 1)));
    let cats = vec![category(1, None), category(2, Some(1))];
    let hal = category_resources_hal(&cats, &vec![true, false], "b");
    assert_eq!(hal.len(), 2);
    assert_eq!(hal[0].links.products.as_ref().map(|l| l.href.as_str()), Some("b/categories/1/products"));
    assert!(hal[1].links.products.is_none());
    assert_eq!(hal[1].links.parent.as_ref().map(|l| l.href.as_str()), Some("b/categories/1"));
    let r = product_resource_from_lookups(&pw, &cats, &vec![false, true], "b");
    let c = r.categories.unwrap();
    assert_eq!((c.len(), c[0].links.products.is_none(), c[1].links.products.is_some()), (2, true, true));
    assert_eq!(r.links.self_link.href, "b/products/12");
    let r = product_resource_from_lookups(&pw, &vec![], &vec![], "b");
    assert!(r.categories.is_none());
}
