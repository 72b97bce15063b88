use e_commerce::api::controller::fallback::default_response_status;
use e_commerce::api::controller::pagination_helper::Pagination;
use e_commerce::api::dto::product_dto::{CreateProductDto, UpdateProductDto};
use e_commerce::api::dto::auth_dto::{AuthResponse, LoginRequestDto};
use e_commerce::api::dto::category_dto::{CreateCategoryDto, UpdateCategoryDto};
use e_commerce::entity::category::{Category, NewCategory, UpdateCategory};
use e_commerce::entity::user::User;
use e_commerce::outbound::dao::product_category_repository::{
    pair_products_with_users, product_user_ids, products_for_category_query,
    PRODUCTS_FOR_CATEGORY_SQL_HEAD, PRODUCTS_FOR_CATEGORY_SQL_TAIL,
};
use e_commerce::service::query::DbError;
use e_commerce::shared::entity::product::{NewProduct, Product};
use e_commerce::shared::env_loader::EnvLoader;

fn some(t: &str) -> Option<String> {
    Some(t.to_string())
}

fn settings(port: Option<String>, max: Option<String>, min: Option<String>) -> Option<EnvLoader> {
    EnvLoader::from_env_values(
        some("127.0.0.1"),
        port,
        some("http://localhost:8080"),
        some("http://fixer/latest?access_key="),
        some("KEY"),
        some("SECRET"),
        some("postgres://db"),
        max,
        min,
    )
}

#[test]
fn settings_from_environment_values() {
    let e = settings(some("8080"), some("15"), None).unwrap();
    assert_eq!(e.get_url(), "127.0.0.1");
    assert_eq!(e.get_port(), 8080);
    assert_eq!(e.get_base_url(), "http://localhost:8080");
    assert_eq!(e.get_fixer_url(), "http://fixer/latest?access_key=");
    assert_eq!(e.get_fixer_api_key(), "KEY");
    assert_eq!(e.get_token_secret_key(), "SECRET");
    assert_eq!(e.get_database_url(), "postgres://db");
    assert_eq!(e.get_connection_pool_max_size(), 15);
    assert_eq!(e.get_connection_pool_min_idle(), None);
    assert_eq!(e.get_address(), "127.0.0.1:8080");
    assert_eq!(e.get_fixer_address(), "http://fixer/latest?access_key=KEY");
    let e = settings(some("0"), some("4294967295"), some("2")).unwrap();
    assert_eq!((e.get_port(), e.get_connection_pool_max_size(), e.get_connection_pool_min_idle()), (0, u32::MAX, Some(2)));
    assert_eq!(e.get_address(), "127.0.0.1:0");
}

#[test]
fn missing_or_bad_settings_are_refused() {
    assert!(settings(None, some("15"), None).is_none());
    assert!(settings(some("65536"), some("15"), None).is_none());
    assert!(settings(some("80a"), some("15"), None).is_none());
    assert!(settings(some("80"), None, None).is_none());
    assert!(settings(some("80"), some("4294967296"), None).is_none());
    assert!(settings(some("80"), some("15"), some("x")).is_none());
    let none_url = EnvLoader::from_env_values(
        None,
        some("1"),
        some("b"),
        some("f"),
        some("k"),
        some("t"),
        some("d"),
        some("1"),
        None,
    );
    assert!(none_url.is_none());
}

#[test]
fn query_of_category_products() {
    let p = Pagination { page: None, size: None, sort: Some(vec!["userid,desc".to_string(), "name".to_string()]) };
    let q = products_for_category_query(&p).ok().unwrap();
    assert_eq!(
        q,
        format!("{}userid desc, name asc{}", PRODUCTS_FOR_CATEGORY_SQL_HEAD, PRODUCTS_FOR_CATEGORY_SQL_TAIL)
    );
    assert!(q.ends_with("ORDER BY userid desc, name asc OFFSET $2 LIMIT $3"));
    let q = products_for_category_query(&Pagination::default()).ok().unwrap();
    assert!(q.ends_with("ORDER BY id asc OFFSET $2 LIMIT $3"));
    let p = Pagination { page: None, size: None, sort: Some(vec!["user".to_string()]) };
    assert!(matches!(products_for_category_query(&p), Err(DbError::NotFound)));
}

fn product(id: i64, owner: i64) -> Product {
    Product { id, name: format!("p{}", id), price_bits: 1.5f64.to_bits(), userid: owner }
}

fn user(id: i64, name: &str) -> User {
    User { id, username: name.to_string(), password: "h".to_string(), role: "USER".to_string() }
}

#[test]
fn products_are_paired_with_their_owners() {
    let products = vec![product(1, 20), product(2, 10), product(3, 20)];
    assert_eq!(product_user_ids(&products), vec![20, 10, 20]);
    let users = vec![user(10, "ann"), user(20, "bob"), user(20, "second bob")];
    let pairs = pair_products_with_users(&products, &users).ok().unwrap();
    let names: Vec<(i64, &str)> = pairs.iter().map(|p| (p.product.id, p.user.username.as_str())).collect();
    assert_eq!(names, vec![(1, "bob"), (2, "ann"), (3, "bob")]);
    let missing = vec![product(4, 99)];
    assert!(matches!(pair_products_with_users(&missing, &users), Err(DbError::NotFound)));
    assert_eq!(pair_products_with_users(&vec![], &users).ok().map(|v| v.len()), Some(0));
}

#[test]
fn bodies_and_records() {
    let dto = LoginRequestDto { username: "ann".to_string(), password: "pw".to_string() };
    assert!(dto.validate());
    let login = dto.to_login_request();
    assert_eq!((login.username, login.password), ("ann", "pw"));
    assert!(!LoginRequestDto { username: String::new(), password: "pw".to_string() }.validate());
    assert!(!LoginRequestDto { username: "a".to_string(), password: "p".repeat(51) }.validate());
    assert!(LoginRequestDto { username: "a".to_string(), password: "p".repeat(50) }.validate());
    let _ = AuthResponse { token: "t".to_string() };

    let create = CreateCategoryDto { name: "toys".to_string() };
    let c = create.to_new_category();
    assert_eq!((c.id, c.name, c.parentid), (None, "toys", None));
    let mut c = NewCategory::from(&create);
    c.set_id(12);
    assert_eq!((c.id, c.name), (Some(12), "toys"));
    let update = UpdateCategoryDto { name: "games".to_string() };
    assert!(update.validate());
    let u = update.to_update_category();
    assert_eq!((u.name, u.parentid), ("games", None));
    let u = UpdateCategory::from(&update);
    assert_eq!((u.name, u.parentid), ("games", None));
    let stored = Category { id: 3, name: "x".to_string(), parentid: Some(1) };
    let u = UpdateCategory::from_category(&stored);
    assert_eq!((u.name, u.parentid), ("x", Some(1)));
    let u = UpdateCategory::new("y", Some(2));
    assert_eq!((u.name, u.parentid), ("y", Some(2)));

    let mut p = NewProduct::new("pen", 2.0f64.to_bits(), 4);
    assert_eq!(p.id, None);
    p.set_id(77);
    assert_eq!((p.id, p.name, f64::from_bits(p.price_bits), p.userid), (Some(77), "pen", 2.0, 4));
    let copy = product(5, 6).duplicate();
    assert_eq!((copy.id, copy.name.as_str(), copy.userid), (5, "p5", 6));
    let u2 = user(3, "cy").duplicate();
    assert_eq!((u2.id, u2.username.as_str()), (3, "cy"));
}

#[test]
fn product_bodies() {
    let dto = CreateProductDto { name: "mug".to_string(), currency: "USD".to_string(), price_bits: 4.0f64.to_bits() };
    assert!(dto.texts_valid());
    let p = dto.to_new_product(8);
    assert_eq!((p.id, p.name, f64::from_bits(p.price_bits), p.userid), (None, "mug", 4.0, 8));
    assert!(!CreateProductDto { name: String::new(), currency: "USD".to_string(), price_bits: 0 }.texts_valid());
    assert!(!CreateProductDto { name: "m".to_string(), currency: "EURO".to_string(), price_bits: 0 }.texts_valid());
    assert!(CreateProductDto { name: "ü".repeat(300), currency: "€€€".to_string(), price_bits: 0 }.texts_valid());
    assert!(!CreateProductDto { name: "x".repeat(301), currency: "EUR".to_string(), price_bits: 0 }.texts_valid());
    let dto = UpdateProductDto { name: "cup".to_string(), currency: "EU".to_string(), price_bits: 1 };
    assert!(!dto.texts_valid());
    let u = dto.to_update_product(3);
    assert_eq!((u.name, u.price_bits, u.userid), ("cup", 1, 3));
}

#[test]
fn unhandled_requests() {
    assert_eq!(default_response_status(true, true), 200);
    assert_eq!(default_response_status(true, false), 405);
    assert_eq!(default_response_status(false, true), 418);
    assert_eq!(default_response_status(false, false), 418);
}
