use e_commerce::errors::authorization_error::AuthorizationError;
use e_commerce::errors::token_error::{TokenGenerationError, TokenParsingError};
use e_commerce::errors::wrong_credentials_error::WrongCredentialsError;
use e_commerce::security::auth_context_holder::{self as holder, no_auth_needed, token_from_header};
use e_commerce::security::jwt_handler::{bearer_token, TokenClaims, TOKEN_EXPIRATION, TOKEN_PREFIX};
use e_commerce::security::role::Role;
use e_commerce::service::auth_helper::{can_mutate_product, can_mutate_product_by_id};
use e_commerce::service::query::DbError;
use e_commerce::shared::auth::auth_user::AuthUser;
use e_commerce::shared::entity::product::Product;
use e_commerce::shared::errors::error_enum::ErrorsEnum;

fn product(owner: i64) -> Product {
    Product { id: 3, name: "lamp".to_string(), price_bits: 12.5f64.to_bits(), userid: owner }
}

#[test]
fn roles_from_stored_names() {
    assert_eq!(Role::from_str("USER"), Some(Role::RoleUser));
    assert_eq!(Role::from_str("ADMIN"), Some(Role::RoleAdmin));
    assert_eq!(Role::from_str("admin"), None);
    assert_eq!(Role::from_str(""), None);
}

#[test]
fn admins_have_user_permission() {
    assert!(Role::RoleUser.has_user_permission());
    assert!(!Role::RoleUser.has_admin_permission());
    assert!(Role::RoleAdmin.has_user_permission());
    assert!(Role::RoleAdmin.has_admin_permission());
}

#[test]
fn token_is_read_from_bearer_header() {
    assert_eq!(token_from_header(Some("Bearer abc.def.ghi")), "abc.def.ghi");
    assert_eq!(token_from_header(Some("Bearer ")), "");
    assert_eq!(token_from_header(Some("Basic abc")), "");
    assert_eq!(token_from_header(Some("bearer abc")), "");
    assert_eq!(token_from_header(Some("Bearer")), "");
    assert_eq!(token_from_header(None), "");
}

#[test]
fn bearer_token_reads_back() {
    assert_eq!(TOKEN_PREFIX, "Bearer");
    let header = bearer_token("x.y.z");
    assert_eq!(header, "Bearer x.y.z");
    assert_eq!(token_from_header(Some(header.as_str())), "x.y.z");
}

#[test]
fn options_requests_need_no_authentication() {
    assert!(no_auth_needed(true));
    assert!(!no_auth_needed(false));
}

#[test]
fn claims_expire_after_the_fixed_time() {
    let c = TokenClaims::issued_at(7, "ann".to_string(), Role::RoleAdmin, 1000);
    assert_eq!(c.get_id(), 7);
    assert_eq!(c.get_username(), "ann");
    assert_eq!(*c.get_role(), Role::RoleAdmin);
    assert_eq!(c.get_issued_at(), 1000);
    assert_eq!(c.get_expiration(), 1000 + TOKEN_EXPIRATION as u64);
    assert_eq!(TOKEN_EXPIRATION, 360000);
}

#[test]
fn claims_issued_now_use_the_clock() {
    let before = std::time::SystemTime::now()
        .duration_since(std::time::UNIX_EPOCH)
        .unwrap()
        .as_secs();
    let c = TokenClaims::new(9, "bob".to_string(), Role::RoleUser).unwrap();
    assert!(c.iat >= before && c.iat <= before + 60);
    assert_eq!(c.exp, c.iat + 360000);
    assert_eq!(c.sub, 9);
    let user = AuthUser::from(c);
    assert_eq!((user.get_id(), user.get_role()), (9, Role::RoleUser));
    let c = TokenClaims::issued_at(9, "bob".to_string(), Role::RoleUser, 5);
    let user = holder::AuthUser::from(c);
    assert_eq!((user.get_id(), user.get_role()), (9, Role::RoleUser));
}

#[test]
fn owners_and_admins_may_change_a_product() {
    let owner = AuthUser::new(5, Role::RoleUser);
    let other = AuthUser::new(6, Role::RoleUser);
    let admin = AuthUser::new(1, Role::RoleAdmin);
    assert!(can_mutate_product(&owner, &product(5)));
    assert!(!can_mutate_product(&other, &product(5)));
    assert!(can_mutate_product(&admin, &product(5)));
}

#[test]
fn changing_a_missing_product_is_not_found() {
    let other = AuthUser::new(6, Role::RoleUser);
    assert_eq!(can_mutate_product_by_id(&other, &Ok(product(6))), Ok(true));
    assert_eq!(can_mutate_product_by_id(&other, &Ok(product(5))), Ok(false));
    assert_eq!(
        can_mutate_product_by_id(&other, &Err(DbError::NotFound)),
        Err(ErrorsEnum::NotFound("product not found".to_string()))
    );
    let admin = AuthUser::new(1, Role::RoleAdmin);
    assert_eq!(
        can_mutate_product_by_id(&admin, &Err(DbError::Other("gone".to_string()))),
        Err(ErrorsEnum::NotFound("product not found".to_string()))
    );
}

#[test]
fn messages_of_security_errors() {
    assert_eq!(AuthorizationError.to_message(), "Token was not provided or invalid.");
    assert_eq!(TokenGenerationError.to_message(), "There was a problem generating the token.");
    assert_eq!(TokenParsingError.to_message(), "There was a problem parsing the token.");
    assert_eq!(WrongCredentialsError.to_message(), "The specified credentials are wrong.");
}

#[test]
fn claims_from_a_clock_reading() {
    let c = TokenClaims::from_clock_reading(4, "eve".to_string(), Role::RoleUser, Some(100)).ok().unwrap();
    assert_eq!((c.sub, c.username.as_str(), c.roles, c.iat, c.exp), (4, "eve", Role::RoleUser, 100, 360100));
    assert!(matches!(
        TokenClaims::from_clock_reading(4, "eve".to_string(), Role::RoleUser, None),
        Err(e) if e == e_commerce::security::jwt_handler::ClaimsTimeError::ClockBeforeEpoch
    ));
    assert!(matches!(
        TokenClaims::from_clock_reading(4, "eve".to_string(), Role::RoleUser, Some(u64::MAX - 359999)),
        Err(e) if e == e_commerce::security::jwt_handler::ClaimsTimeError::ExpirationOverflow
    ));
    let edge = TokenClaims::from_clock_reading(4, "eve".to_string(), Role::RoleUser, Some(u64::MAX - 360000)).ok().unwrap();
    assert_eq!(edge.exp, u64::MAX);
}
