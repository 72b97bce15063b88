use e_commerce::api::controller::pagination_helper::Pagination;
use e_commerce::api::dto::category_dto::{CreateCategoryDto, UpdateCategoryDto};
use e_commerce::entity::category::Category;
use e_commerce::entity::product_category_relation::ProductCategoryRelation;
use e_commerce::entity::user::User;
use e_commerce::errors::token_error::TokenGenerationError;
use e_commerce::security::role::Role;
use e_commerce::service::category_products_service::{
    AddProductToCategory, GetProductsForCategory, RemoveProductFromCategory,
};
use e_commerce::service::category_service::{
    CreateCategory, DeleteCategory, GetCategories, GetCategoryById, GetCategoryForProduct,
    UpdateCategoryOp,
};
use e_commerce::service::category_subcategories_service::{
    AddSubcategoryToCategory, DeleteSubcategoryFromCategory, GetSubcategoriesForCategory,
};
use e_commerce::service::product_service::{
    CreateProduct, DeleteProduct, GetProductWithUserById, GetProductsWithUsers, UpdateProductOp,
};
use e_commerce::service::query::{Action, DbError, Query, Reply};
use e_commerce::service::security_service::Authenticate;
use e_commerce::shared::auth::auth_user::AuthUser;
use e_commerce::shared::entity::login_request::LoginRequest;
use e_commerce::shared::entity::product::{NewProduct, Product, ProductWithUser, UpdateProduct};
use e_commerce::shared::errors::error_enum::ErrorsEnum;

fn err_of<T>(a: Action<'_, T>) -> ErrorsEnum {
    match a {
        Action::Done(Err(e)) => e,
        Action::Done(Ok(_)) => panic!("expected an error, got a result"),
        Action::Run(_) => panic!("expected an error, got a query"),
    }
}

fn ok_of<T>(a: Action<'_, T>) -> T {
    match a {
        Action::Done(Ok(v)) => v,
        _ => panic!("expected a result"),
    }
}

fn s(t: &str) -> String {
    t.to_string()
}

fn category(id: i64, parentid: Option<i64>) -> Category {
    Category { id, name: format!("c{}", id), parentid }
}

fn product(id: i64, owner: i64) -> Product {
    Product { id, name: s("chair"), price_bits: 20.0f64.to_bits(), userid: owner }
}

fn user(id: i64) -> User {
    User { id, username: format!("u{}", id), password: s("hash"), role: s("USER") }
}

#[test]
fn listing_categories() {
    let admin = AuthUser::new(1, Role::RoleAdmin);
    let (m, a) = GetCategories::start(&admin);
    assert!(matches!(a, Action::Run(Query::AllCategories)));
    let v = ok_of(m.step(Reply::Categories(Ok(vec![category(1, None)]))).1);
    assert_eq!(v.len(), 1);
    let (m, _) = GetCategories::start(&admin);
    assert_eq!(
        err_of(m.step(Reply::Categories(Err(DbError::NotFound))).1),
        ErrorsEnum::NotFound(s("category not found"))
    );
}

#[test]
fn reading_one_category() {
    let u = AuthUser::new(2, Role::RoleUser);
    let (m, a) = GetCategoryById::start(&u, 7);
    assert!(matches!(a, Action::Run(Query::CategoryById(7))));
    assert_eq!(ok_of(m.step(Reply::Category(Ok(category(7, None)))).1).id, 7);
    let (m, _) = GetCategoryById::start(&u, 7);
    assert_eq!(
        err_of(m.step(Reply::Category(Err(DbError::NotFound))).1),
        ErrorsEnum::NotFound(s("category not found"))
    );
}

#[test]
fn only_admins_create_categories() {
    let u = AuthUser::new(2, Role::RoleUser);
    let dto = CreateCategoryDto { name: s("garden") };
    assert_eq!(err_of(CreateCategory::start(&u, &dto).1), ErrorsEnum::Forbidden);
    let admin = AuthUser::new(1, Role::RoleAdmin);
    let (m, a) = CreateCategory::start(&admin, &dto);
    match a {
        Action::Run(Query::InsertCategory(c)) => {
            assert_eq!((c.id, c.name, c.parentid), (None, "garden", None));
        },
        _ => panic!("an insert was expected"),
    }
    assert_eq!(ok_of(m.step(Reply::Category(Ok(category(5, None)))).1).id, 5);
    let (m, _) = CreateCategory::start(&admin, &dto);
    assert_eq!(
        err_of(m.step(Reply::Category(Err(DbError::Other(s("x"))))).1),
        ErrorsEnum::CreationError(s("error creating Category"))
    );
}

#[test]
fn category_names_must_have_a_valid_length() {
    let admin = AuthUser::new(1, Role::RoleAdmin);
    for name in [String::new(), "x".repeat(101)] {
        let dto = CreateCategoryDto { name };
        assert!(!dto.validate());
        assert_eq!(
            err_of(CreateCategory::start(&admin, &dto).1),
            ErrorsEnum::DTONotValid(s("DTO was not valid"))
        );
    }
    // the length counts characters, not bytes
    let dto = CreateCategoryDto { name: "é".repeat(100) };
    assert!(dto.validate());
    assert!(matches!(CreateCategory::start(&admin, &dto).1, Action::Run(_)));
}

#[test]
fn renaming_a_category() {
    let admin = AuthUser::new(1, Role::RoleAdmin);
    let dto = UpdateCategoryDto { name: s("tools") };
    let (m, a) = UpdateCategoryOp::start(&admin, 4, &dto);
    assert!(matches!(a, Action::Run(Query::CategoryById(4))));
    let (m, a) = m.step(Reply::Category(Ok(category(4, Some(2)))));
    match a {
        Action::Run(Query::UpdateCategory(u, id)) => {
            assert_eq!((u.name, u.parentid, id), ("tools", None, 4));
        },
        _ => panic!("an update was expected"),
    }
    let stored = Category { id: 4, name: s("tools"), parentid: None };
    assert_eq!(ok_of(m.step(Reply::Category(Ok(stored))).1).name, "tools");
    let (m, _) = UpdateCategoryOp::start(&admin, 4, &dto);
    assert_eq!(
        err_of(m.step(Reply::Category(Err(DbError::NotFound))).1),
        ErrorsEnum::NotFound(s("category not found"))
    );
    let bad = UpdateCategoryDto { name: String::new() };
    assert!(!bad.validate());
    assert_eq!(err_of(UpdateCategoryOp::start(&admin, 4, &bad).1), ErrorsEnum::DTONotValid(s("DTO was not valid")));
    let u = AuthUser::new(2, Role::RoleUser);
    assert_eq!(err_of(UpdateCategoryOp::start(&u, 4, &dto).1), ErrorsEnum::Forbidden);
}

#[test]
fn deleting_a_category() {
    let admin = AuthUser::new(1, Role::RoleAdmin);
    let (m, a) = DeleteCategory::start(&admin, 3);
    assert!(matches!(a, Action::Run(Query::DeleteCategory(3))));
    assert_eq!(ok_of(m.step(Reply::Count(Ok(1))).1), 1);
    let (m, _) = DeleteCategory::start(&admin, 3);
    assert_eq!(err_of(m.step(Reply::Count(Ok(0))).1), ErrorsEnum::NotFound(s("category not found")));
    let (m, _) = DeleteCategory::start(&admin, 3);
    assert_eq!(
        err_of(m.step(Reply::Count(Err(DbError::Other(s("fk"))))).1),
        ErrorsEnum::DeletionError(s("error deleting Category"))
    );
    let u = AuthUser::new(2, Role::RoleUser);
    assert_eq!(err_of(DeleteCategory::start(&u, 3).1), ErrorsEnum::Forbidden);
}

#[test]
fn categories_of_a_product() {
    let u = AuthUser::new(2, Role::RoleUser);
    let (m, a) = GetCategoryForProduct::start(&u, 8);
    assert!(matches!(a, Action::Run(Query::CategoriesForProduct(8))));
    assert_eq!(ok_of(m.step(Reply::Categories(Ok(vec![category(1, None), category(2, None)]))).1).len(), 2);
}

#[test]
fn subcategories() {
    let u = AuthUser::new(2, Role::RoleUser);
    let (m, a) = GetSubcategoriesForCategory::start(&u, 1);
    assert!(matches!(a, Action::Run(Query::Subcategories(1))));
    assert_eq!(ok_of(m.step(Reply::Categories(Ok(vec![category(2, Some(1))]))).1)[0].id, 2);
}

#[test]
fn adding_a_subcategory() {
    let admin = AuthUser::new(1, Role::RoleAdmin);
    let (m, a) = AddSubcategoryToCategory::start(&admin, 1, 2);
    assert!(matches!(a, Action::Run(Query::CategoryById(1))));
    let (m, a) = m.step(Reply::Category(Ok(category(1, None))));
    assert!(matches!(a, Action::Run(Query::CategoryById(2))));
    let (m, a) = m.step(Reply::Category(Ok(category(2, None))));
    match a {
        Action::Run(Query::SetParent { subcategory, parentid }) => {
            assert_eq!((subcategory.id, parentid), (2, Some(1)));
        },
        _ => panic!("the parent should be set"),
    }
    assert_eq!(ok_of(m.step(Reply::Category(Ok(category(2, Some(1))))).1).id, 1);

    let (m, _) = AddSubcategoryToCategory::start(&admin, 1, 2);
    let (m, _) = m.step(Reply::Category(Ok(category(1, None))));
    let (_, a) = m.step(Reply::Category(Ok(category(2, Some(1)))));
    assert_eq!(
        err_of(a),
        ErrorsEnum::CategoryAssociationError(s("category 1 already contains subcategory 2"))
    );
    let u = AuthUser::new(2, Role::RoleUser);
    assert_eq!(err_of(AddSubcategoryToCategory::start(&u, 1, 2).1), ErrorsEnum::Forbidden);
}

#[test]
fn removing_a_subcategory() {
    let admin = AuthUser::new(1, Role::RoleAdmin);
    let (m, _) = DeleteSubcategoryFromCategory::start(&admin, 1, 2);
    let (m, _) = m.step(Reply::Category(Ok(category(1, None))));
    let (_, a) = m.step(Reply::Category(Ok(category(2, Some(9)))));
    assert_eq!(
        err_of(a),
        ErrorsEnum::CategoryAssociationError(s("category 1 does not contain subcategory 2"))
    );
    let (m, _) = DeleteSubcategoryFromCategory::start(&admin, 1, 2);
    let (m, _) = m.step(Reply::Category(Ok(category(1, None))));
    let (m, a) = m.step(Reply::Category(Ok(category(2, Some(1)))));
    match a {
        Action::Run(Query::SetParent { subcategory, parentid }) => {
            assert_eq!((subcategory.id, parentid), (2, None));
        },
        _ => panic!("the parent should be cleared"),
    }
    assert_eq!(ok_of(m.step(Reply::Category(Ok(category(2, None)))).1).id, 2);
}

#[test]
fn listing_products() {
    let u = AuthUser::new(2, Role::RoleUser);
    let p = Pagination::default();
    let (m, a) = GetProductsWithUsers::start(&u, &p);
    assert!(matches!(a, Action::Run(Query::ProductsWithUsers(_))));
    let page = (vec![ProductWithUser::from(product(1, 2), user(2))], 1i64);
    let (items, total) = ok_of(m.step(Reply::ProductPage(Ok(page))).1);
    assert_eq!((items.len(), total), (1, 1));

    let (m, a) = GetProductsForCategory::start(&u, &p, 6);
    assert!(matches!(a, Action::Run(Query::CategoryById(6))));
    let (m, a) = m.step(Reply::Category(Ok(category(6, None))));
    assert!(matches!(a, Action::Run(Query::ProductsForCategory(_, 6))));
    assert_eq!(
        err_of(m.step(Reply::ProductPage(Err(DbError::NotFound))).1),
        ErrorsEnum::DieselError(s("error getting products for category"))
    );
}

#[test]
fn reading_one_product() {
    let u = AuthUser::new(2, Role::RoleUser);
    let (m, a) = GetProductWithUserById::start(&u, 4);
    assert!(matches!(a, Action::Run(Query::ProductWithUserById(4))));
    assert_eq!(
        err_of(m.step(Reply::ProductWithUser(Err(DbError::NotFound))).1),
        ErrorsEnum::NotFound(s("product not found"))
    );
}

#[test]
fn creating_a_product_in_euros_and_in_dollars() {
    let u = AuthUser::new(2, Role::RoleUser);
    let (m, a) = CreateProduct::start(&u, NewProduct::new("lamp", 10.0f64.to_bits(), 2), "EUR");
    match a {
        Action::Run(Query::InsertProductWithUser(p)) => assert_eq!(f64::from_bits(p.price_bits), 10.0),
        _ => panic!("an insert was expected"),
    }
    let created = ProductWithUser::from(product(9, 2), user(2));
    assert_eq!(ok_of(m.step(Reply::ProductWithUser(Ok(created))).1).product.id, 9);

    let (m, a) = CreateProduct::start(&u, NewProduct::new("lamp", 11.0f64.to_bits(), 2), "USD");
    match a {
        Action::Run(Query::ConvertToEuro(cur, bits)) => assert_eq!((cur, f64::from_bits(bits)), ("USD", 11.0)),
        _ => panic!("a conversion was expected"),
    }
    let (m, a) = m.step(Reply::Converted(Ok(9.5f64.to_bits())));
    match a {
        Action::Run(Query::InsertProductWithUser(p)) => {
            assert_eq!((p.name, f64::from_bits(p.price_bits), p.userid), ("lamp", 9.5, 2))
        },
        _ => panic!("an insert was expected"),
    }
    assert_eq!(
        err_of(m.step(Reply::ProductWithUser(Err(DbError::Other(s("x"))))).1),
        ErrorsEnum::CreationError(s("error creating Product"))
    );

    let (m, _) = CreateProduct::start(&u, NewProduct::new("lamp", 1, 2), "XYZ");
    let e = ErrorsEnum::WrongCurrency(s("currency 'XYZ' not valid"));
    assert_eq!(err_of(m.step(Reply::Converted(Err(e.clone()))).1), e);
}

#[test]
fn only_owners_and_admins_change_products() {
    let owner = AuthUser::new(2, Role::RoleUser);
    let stranger = AuthUser::new(3, Role::RoleUser);
    let admin = AuthUser::new(1, Role::RoleAdmin);

    let (m, a) = UpdateProductOp::start(&stranger, UpdateProduct::new("x", 1, 3), "EUR", 5);
    assert!(matches!(a, Action::Run(Query::ProductById(5))));
    assert_eq!(err_of(m.step(Reply::Product(Ok(product(5, 2)))).1), ErrorsEnum::Forbidden);

    for who in [&owner, &admin] {
        let (m, _) = UpdateProductOp::start(who, UpdateProduct::new("x", 1, 2), "EUR", 5);
        let (m, a) = m.step(Reply::Product(Ok(product(5, 2))));
        assert!(matches!(a, Action::Run(Query::UpdateProductWithUser(_, 5))));
        assert_eq!(
            err_of(m.step(Reply::ProductWithUser(Err(DbError::NotFound))).1),
            ErrorsEnum::UpdateError(s("error updating Product"))
        );
    }

    let (m, _) = UpdateProductOp::start(&owner, UpdateProduct::new("x", 1, 2), "GBP", 5);
    let (m, a) = m.step(Reply::Converted(Ok(3)));
    assert!(matches!(a, Action::Run(Query::ProductById(5))));
    let (_, a) = m.step(Reply::Product(Ok(product(5, 2))));
    match a {
        Action::Run(Query::UpdateProductWithUser(p, 5)) => assert_eq!(p.price_bits, 3),
        _ => panic!("an update was expected"),
    }

    let (m, _) = DeleteProduct::start(&stranger, 5);
    assert_eq!(err_of(m.step(Reply::Product(Ok(product(5, 2)))).1), ErrorsEnum::Forbidden);
    let (m, _) = DeleteProduct::start(&owner, 5);
    let (m, a) = m.step(Reply::Product(Ok(product(5, 2))));
    assert!(matches!(a, Action::Run(Query::DeleteProduct(5))));
    assert_eq!(err_of(m.step(Reply::Count(Ok(0))).1), ErrorsEnum::NotFound(s("product not found")));
    let (m, _) = DeleteProduct::start(&admin, 5);
    let (m, _) = m.step(Reply::Product(Ok(product(5, 2))));
    assert_eq!(ok_of(m.step(Reply::Count(Ok(1))).1), 1);
    let (m, _) = DeleteProduct::start(&admin, 5);
    assert_eq!(
        err_of(m.step(Reply::Product(Err(DbError::NotFound))).1),
        ErrorsEnum::NotFound(s("product not found"))
    );
}

#[test]
fn adding_a_product_to_a_category() {
    let owner = AuthUser::new(2, Role::RoleUser);
    let (m, _) = AddProductToCategory::start(&owner, 7, 5);
    let (m, a) = m.step(Reply::Category(Ok(category(7, None))));
    assert!(matches!(a, Action::Run(Query::ProductById(5))));
    let (m, a) = m.step(Reply::Product(Ok(product(5, 2))));
    assert!(matches!(a, Action::Run(Query::RelationOf(7, 5))));
    let (m, a) = m.step(Reply::Relation(Err(DbError::NotFound)));
    match a {
        Action::Run(Query::AddRelation(r)) => assert_eq!(r, ProductCategoryRelation { productid: 5, categoryid: 7 }),
        _ => panic!("an insert was expected"),
    }
    let (m, a) = m.step(Reply::Relation(Ok(ProductCategoryRelation { productid: 5, categoryid: 7 })));
    assert!(matches!(a, Action::Run(Query::UserById(2))));
    let r = ok_of(m.step(Reply::User(Ok(user(2)))).1);
    assert_eq!((r.product.id, r.user.id), (5, 2));

    let (m, _) = AddProductToCategory::start(&owner, 7, 5);
    let (m, _) = m.step(Reply::Category(Ok(category(7, None))));
    let (m, _) = m.step(Reply::Product(Ok(product(5, 2))));
    let (_, a) = m.step(Reply::Relation(Ok(ProductCategoryRelation { productid: 5, categoryid: 7 })));
    assert_eq!(
        err_of(a),
        ErrorsEnum::ProductCategoryError(s("product '5' is already in category '7'"))
    );

    let (m, _) = AddProductToCategory::start(&owner, 7, 5);
    assert_eq!(
        err_of(m.step(Reply::Category(Err(DbError::NotFound))).1),
        ErrorsEnum::NotFound(s("category not found"))
    );
}

#[test]
fn removing_a_product_from_a_category() {
    let owner = AuthUser::new(2, Role::RoleUser);
    let (m, _) = RemoveProductFromCategory::start(&owner, 7, 5);
    let (m, _) = m.step(Reply::Category(Ok(category(7, None))));
    let (m, _) = m.step(Reply::Product(Ok(product(5, 2))));
    let (_, a) = m.step(Reply::Relation(Err(DbError::NotFound)));
    assert_eq!(
        err_of(a),
        ErrorsEnum::ProductCategoryError(s("product '5' is not in category '7'"))
    );
    let (m, _) = RemoveProductFromCategory::start(&owner, 7, 5);
    let (m, _) = m.step(Reply::Category(Ok(category(7, None))));
    let (m, _) = m.step(Reply::Product(Ok(product(5, 2))));
    let (m, a) = m.step(Reply::Relation(Ok(ProductCategoryRelation { productid: 5, categoryid: 7 })));
    assert!(matches!(a, Action::Run(Query::RemoveRelation(_))));
    ok_of(m.step(Reply::Count(Ok(1))).1);
    let stranger = AuthUser::new(3, Role::RoleUser);
    let (m, _) = RemoveProductFromCategory::start(&stranger, 7, 5);
    let (m, _) = m.step(Reply::Category(Ok(category(7, None))));
    assert_eq!(err_of(m.step(Reply::Product(Ok(product(5, 2)))).1), ErrorsEnum::Forbidden);
}

fn login<'a>(username: &'a str, password: &'a str) -> LoginRequest<'a> {
    LoginRequest { username, password }
}

fn stored_user(password: &str, role: &str) -> User {
    User { id: 11, username: s("dora"), password: bcrypt::hash(password, 4).unwrap(), role: s(role) }
}

#[test]
fn login_with_matching_credentials_issues_a_token() {
    let (m, a) = Authenticate::start(login("dora", "secret"));
    assert!(matches!(a, Action::Run(Query::UserByUsername("dora"))));
    let (m, a) = m.step(Reply::User(Ok(stored_user("secret", "ADMIN"))));
    match a {
        Action::Run(Query::GenerateToken(id, name, role)) => {
            assert_eq!((id, name.as_str(), role), (11, "dora", Role::RoleAdmin))
        },
        _ => panic!("a token should be asked for"),
    }
    assert_eq!(ok_of(m.step(Reply::Token(Ok(s("t.o.k")))).1), "t.o.k");
}

#[test]
fn login_with_wrong_credentials_is_refused() {
    let (m, _) = Authenticate::start(login("dora", "wrong"));
    assert_eq!(err_of(m.step(Reply::User(Ok(stored_user("secret", "USER")))).1), ErrorsEnum::WrongCredentials);
    let (m, _) = Authenticate::start(login("dora", "wrong"));
    assert_eq!(err_of(m.step(Reply::User(Err(DbError::NotFound))).1), ErrorsEnum::WrongCredentials);
    // another user name never matches, even with the right password
    let (m, _) = Authenticate::start(login("dorb", "secret"));
    assert_eq!(err_of(m.step(Reply::User(Ok(stored_user("secret", "USER")))).1), ErrorsEnum::WrongCredentials);
    // a stored hash that cannot be read never matches
    let (m, _) = Authenticate::start(login("dora", "secret"));
    let broken = User { id: 11, username: s("dora"), password: s("not a hash"), role: s("USER") };
    assert_eq!(err_of(m.step(Reply::User(Ok(broken))).1), ErrorsEnum::WrongCredentials);
}

#[test]
fn token_failure_is_a_token_error() {
    let (m, _) = Authenticate::start(login("dora", "secret"));
    let (m, _) = m.step(Reply::User(Ok(stored_user("secret", "USER"))));
    assert_eq!(
        err_of(m.step(Reply::Token(Err(TokenGenerationError))).1),
        ErrorsEnum::TokenError(s("error parsing the token"))
    );
}

#[test]
fn unreadable_stored_role_stops_the_login() {
    let (m, _) = Authenticate::start(login("dora", "secret"));
    assert!(m.try_step(Reply::User(Ok(stored_user("secret", "GUEST")))).is_none());
    // with a wrong password the role is never read
    let (m2, _) = Authenticate::start(login("dora", "nope"));
    match m2.try_step(Reply::User(Ok(stored_user("secret", "GUEST")))) {
        Some((_, a)) => assert_eq!(err_of(a), ErrorsEnum::WrongCredentials),
        None => panic!("a wrong password should be refused"),
    }
}

#[test]
fn adding_then_removing_a_subcategory_restores_it() {
    let admin = AuthUser::new(1, Role::RoleAdmin);
    let original = Category { id: 2, name: s("lamps"), parentid: None };
    let (m, _) = AddSubcategoryToCategory::start(&admin, 1, 2);
    let (m, _) = m.step(Reply::Category(Ok(category(1, None))));
    let (m, a) = m.step(Reply::Category(Ok(original.clone())));
    let stored = match a {
        Action::Run(Query::SetParent { subcategory, parentid }) => Category { parentid, ..subcategory },
        _ => panic!("the parent should be set"),
    };
    assert_eq!((stored.id, stored.name.as_str(), stored.parentid), (2, "lamps", Some(1)));
    assert_eq!(ok_of(m.step(Reply::Category(Ok(stored.clone()))).1).id, 1);

    let (m, _) = DeleteSubcategoryFromCategory::start(&admin, 1, 2);
    let (m, _) = m.step(Reply::Category(Ok(category(1, None))));
    let (m, a) = m.step(Reply::Category(Ok(stored)));
    let restored = match a {
        Action::Run(Query::SetParent { subcategory, parentid }) => Category { parentid, ..subcategory },
        _ => panic!("the parent should be cleared"),
    };
    assert_eq!((restored.id, restored.name.as_str(), restored.parentid), (original.id, "lamps", original.parentid));
    let answered = ok_of(m.step(Reply::Category(Ok(restored))).1);
    assert_eq!((answered.id, answered.parentid), (2, None));
}
