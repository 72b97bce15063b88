use e_commerce::errors::error_response_body::timestamp_at;
use e_commerce::api::error::ServiceError;
use e_commerce::errors::error_enum::ErrorsEnum as CatalogueError;
use e_commerce::errors::error_enums::ErrorsEnum as AuthError;
use e_commerce::errors::error_response_body::ErrorResponseBody;
use e_commerce::service::currency_conversion_service::{
    needs_conversion, unreadable_rates, wrong_currency, SRC_CURRENCY,
};
use e_commerce::shared::errors::error_enum::ErrorsEnum;

fn s(t: &str) -> String {
    t.to_string()
}

fn all_errors() -> Vec<(ErrorsEnum, u16, &'static str, &'static str)> {
    vec![
        (ErrorsEnum::WrongCredentials, 403, "Forbidden", "Access Denied"),
        (ErrorsEnum::TokenError(s("m1")), 500, "Internal Server Error", "m1"),
        (ErrorsEnum::NotFound(s("m2")), 404, "Not Found", "m2"),
        (ErrorsEnum::Forbidden, 403, "Forbidden", "Access Denied"),
        (ErrorsEnum::CreationError(s("m3")), 500, "Internal Server Error", "m3"),
        (ErrorsEnum::UpdateError(s("m4")), 500, "Internal Server Error", "m4"),
        (ErrorsEnum::DeletionError(s("m5")), 500, "Internal Server Error", "m5"),
        (ErrorsEnum::DieselError(s("m6")), 500, "Internal Server Error", "m6"),
        (ErrorsEnum::DTONotValid(s("m7")), 400, "Bad Request", "m7"),
        (ErrorsEnum::JsonParsingError(s("m8")), 400, "Bad Request", "m8"),
        (ErrorsEnum::CategoryAssociationError(s("m9")), 400, "Bad Request", "m9"),
        (ErrorsEnum::NoPropertyError(s("m10")), 500, "Internal Server Error", "m10"),
        (ErrorsEnum::EnvLoaderError(s("m11")), 500, "Internal Server Error", "m11"),
        (ErrorsEnum::FixerApiError, 500, "Internal Server Error", "error with fixer api"),
        (ErrorsEnum::WrongCurrency(s("m12")), 400, "Bad Request", "m12"),
        (ErrorsEnum::ProductCategoryError(s("m13")), 400, "Bad Request", "m13"),
        (ErrorsEnum::DatabaseError(s("m14")), 500, "Internal Server Error", "m14"),
    ]
}

#[test]
fn every_error_has_its_response() {
    for (e, status, reason, message) in all_errors() {
        let r = e.get_response("/p");
        assert_eq!(r.status, status, "{:?}", e);
        assert_eq!(r.body.status, status, "{:?}", e);
        assert_eq!(r.body.error, reason, "{:?}", e);
        assert_eq!(r.body.message, message, "{:?}", e);
        assert_eq!(r.body.path, "/p");
        assert!(!r.body.timestamp.is_empty());
    }
}

#[test]
fn messages_of_errors() {
    assert_eq!(ErrorsEnum::WrongCredentials.to_message(), "Wrong credentials");
    assert_eq!(ErrorsEnum::Forbidden.to_message(), "Forbidden");
    assert_eq!(ErrorsEnum::FixerApiError.to_message(), "Fixer API error");
    assert_eq!(ErrorsEnum::NotFound(s("x")).to_message(), "Not found: x");
    assert_eq!(ErrorsEnum::TokenError(s("x")).to_message(), "Token error: x");
    assert_eq!(ErrorsEnum::DTONotValid(s("x")).to_message(), "DTO not valid: x");
    assert_eq!(
        ErrorsEnum::CategoryAssociationError(s("x")).to_message(),
        "Category Association error: x"
    );
    assert_eq!(ErrorsEnum::NoPropertyError(s("x")).to_message(), "Property error: x");
    assert_eq!(ErrorsEnum::ProductCategoryError(s("x")).to_message(), "Product Category error: x");
    assert_eq!(ErrorsEnum::DatabaseError(s("x")).to_message(), "Database error: x");
}

#[test]
fn service_error_answers_as_its_error() {
    let e = ServiceError::new(s("/categories/3"), ErrorsEnum::NotFound(s("category not found")));
    assert_eq!(e.status_code(), 404);
    assert_eq!(e.to_message(), "Not found: category not found");
    let r = e.error_response();
    assert_eq!((r.status, r.body.status, r.body.message, r.body.path), (404, 404, "category not found", "/categories/3"));
    let e = ServiceError::new(s("/x"), ErrorsEnum::WrongCurrency(s("bad")));
    assert_eq!(e.status_code(), 400);
}

#[test]
fn catalogue_errors_answer_with_their_status() {
    let cases = vec![
        (CatalogueError::Forbidden, 403, "Access Denied"),
        (CatalogueError::ClientError, 500, "error setting client"),
        (CatalogueError::FixerApiError, 500, "error with fixer api"),
        (CatalogueError::CategoriesAlreadyAssociated(s("a")), 400, "a"),
        (CatalogueError::CategoriesNotAssociated(s("b")), 400, "b"),
        (CatalogueError::NotFound(s("c")), 404, "c"),
        (CatalogueError::WrongCredentials, 403, "Access Denied"),
        (CatalogueError::DatabaseError(s("d")), 500, "d"),
    ];
    for (e, status, message) in cases {
        let r = e.get_response("/q");
        assert_eq!((r.status, r.body.status, r.body.message), (status, status, message), "{:?}", e);
    }
}

#[test]
fn forbidden_auth_error_is_sent_as_unauthorized() {
    let r = AuthError::Forbidden.get_response("/a");
    assert_eq!((r.status, r.body.status, r.body.error, r.body.message), (401, 403, "Forbidden", "Access Denied"));
    let r = AuthError::WrongCredentials.get_response("/a");
    assert_eq!((r.status, r.body.status), (403, 403));
    let e = AuthError::TokenParsing(s("t"));
    let r = e.get_response("/a");
    assert_eq!((r.status, r.body.status, r.body.message), (500, 500, "t"));
    let e = AuthError::TokenGenerationError(s("g"));
    let r = e.get_response("/a");
    assert_eq!((r.status, r.body.message), (500, "g"));
    let e = AuthError::NotFound(s("n"));
    let r = e.get_response("/a");
    assert_eq!((r.status, r.body.error), (404, "Not Found"));
    for e in [AuthError::CreationError(s("1")), AuthError::UpdateError(s("2")), AuthError::DeletionError(s("3")), AuthError::DieselError(s("4"))] {
        assert_eq!(e.get_response("/").status, 500);
    }
}

#[test]
fn response_bodies() {
    let b = ErrorResponseBody::unauthorized("/u");
    assert_eq!((b.status, b.error, b.message, b.path), (401, "Unauthorized", "Access Denied", "/u"));
    let b = ErrorResponseBody::new(418, "Teapot", "short and stout", "/t");
    assert_eq!((b.status, b.error, b.message, b.path), (418, "Teapot", "short and stout", "/t"));
    // the timestamp reads like 2024-01-31T12:00:00.000+0000
    assert_eq!(b.timestamp.len(), 28);
    assert_eq!(&b.timestamp[10..11], "T");
    assert!(b.timestamp.ends_with("+0000"));
}

#[test]
fn currency_errors() {
    assert_eq!(SRC_CURRENCY, "EUR");
    assert!(!needs_conversion("EUR"));
    assert!(needs_conversion("USD"));
    assert!(needs_conversion("eur"));
    assert_eq!(wrong_currency("XYZ"), ErrorsEnum::WrongCurrency(s("currency 'XYZ' not valid")));
    assert_eq!(unreadable_rates(), ErrorsEnum::JsonParsingError(s("error parsing fixer api response")));
}

#[test]
fn timestamps_of_clock_readings() {
    assert_eq!(timestamp_at(Ok((0, 0))), "1970-01-01T00:00:00.000+0000");
    assert_eq!(timestamp_at(Ok((1_700_000_000, 123_456_789))), "2023-11-14T22:13:20.123+0000");
    assert_eq!(timestamp_at(Err((1, 500_000_000))), "1969-12-31T23:59:58.500+0000");
    assert_eq!(timestamp_at(Err((86_400, 0))), "1969-12-31T00:00:00.000+0000");
    // readings chrono cannot hold give an empty text
    assert_eq!(timestamp_at(Ok((u64::MAX, 0))), "");
    assert_eq!(timestamp_at(Ok((i64::MAX as u64, 0))), "");
    let b = ErrorResponseBody::at_reading(404, "Not Found", "gone", "/x", Ok((86_400, 1_000_000)));
    assert_eq!((b.timestamp.as_str(), b.status, b.path), ("1970-01-02T00:00:00.001+0000", 404, "/x"));
}

#[test]
fn server_errors_are_told_apart() {
    for (e, status, _, _) in all_errors() {
        assert_eq!(e.is_server_error(), status >= 500, "{:?}", e);
    }
}
