//! The error kinds of the catalogue and how each is answered.

use vstd::prelude::*;
use crate::errors::error_response_body::{clock_timestamp, reason_phrase, ErrorResponseBody, HttpErrorResponse};

verus! {
/// The errors a request can end with.
#[derive(Debug, Clone, PartialEq, Eq)]
pub enum ErrorsEnum {
    WrongCredentials,
    TokenError(String),
    NotFound(String),
    Forbidden,
    CreationError(String),
    UpdateError(String),
    DeletionError(String),
    DieselError(String),
    DTONotValid(String),
    JsonParsingError(String),
    CategoriesAlreadyAssociated(String),
    CategoriesNotAssociated(String),
    NoPropertyError(String),
    EnvLoaderError(String),
    ClientError,
    FixerApiError,
    WrongCurrency(String),
    ProductCategoryError(String),
    DatabaseError(String),
}

pub const TOKEN_PARSING_ERROR_MSG: &'static str = "error parsing the token";
pub const TOKEN_GENERATION_ERROR_MSG: &'static str = "error generating the token";
pub const DTO_NOT_VALID_ERROR_MSG: &'static str = "DTO was not valid";
pub const CATEGORY_NOT_FOUND_MSG: &'static str = "category not found";
pub const PRODUCT_NOT_FOUND_MSG: &'static str = "product not found";
pub const USER_NOT_FOUND_MSG: &'static str = "user not found";
pub const SUBCATEGORY_UPDATE_ERROR_MSG: &'static str = "error updating subcategory";

impl ErrorsEnum {
    /// The HTTP status the error is answered with.
    pub open spec fn spec_status(&self) -> u16 {
        match self {
            ErrorsEnum::WrongCredentials => 403,
            ErrorsEnum::TokenError(_) => 500,
            ErrorsEnum::NotFound(_) => 404,
            ErrorsEnum::Forbidden => 403,
            ErrorsEnum::CreationError(_) => 500,
            ErrorsEnum::UpdateError(_) => 500,
            ErrorsEnum::DeletionError(_) => 500,
            ErrorsEnum::DieselError(_) => 500,
            ErrorsEnum::DTONotValid(_) => 400,
            ErrorsEnum::JsonParsingError(_) => 400,
            ErrorsEnum::CategoriesAlreadyAssociated(_) => 400,
            ErrorsEnum::CategoriesNotAssociated(_) => 400,
            ErrorsEnum::NoPropertyError(_) => 500,
            ErrorsEnum::EnvLoaderError(_) => 500,
            ErrorsEnum::ClientError => 500,
            ErrorsEnum::FixerApiError => 500,
            ErrorsEnum::WrongCurrency(_) => 400,
            ErrorsEnum::ProductCategoryError(_) => 400,
            ErrorsEnum::DatabaseError(_) => 500,
        }
    }

    /// The status written in the body of the error's response: the status
    /// the response is sent with.
    pub open spec fn spec_body_status(&self) -> u16 {
        self.spec_status()
    }

    /// The message in the body of the error's response.
    pub open spec fn spec_message(&self) -> Seq<char> {
        match self {
            ErrorsEnum::WrongCredentials => "Access Denied"@,
            ErrorsEnum::TokenError(msg) => msg@,
            ErrorsEnum::NotFound(msg) => msg@,
            ErrorsEnum::Forbidden => "Access Denied"@,
            ErrorsEnum::CreationError(msg) => msg@,
            ErrorsEnum::UpdateError(msg) => msg@,
            ErrorsEnum::DeletionError(msg) => msg@,
            ErrorsEnum::DieselError(msg) => msg@,
            ErrorsEnum::DTONotValid(msg) => msg@,
            ErrorsEnum::JsonParsingError(msg) => msg@,
            ErrorsEnum::CategoriesAlreadyAssociated(msg) => msg@,
            ErrorsEnum::CategoriesNotAssociated(msg) => msg@,
            ErrorsEnum::NoPropertyError(msg) => msg@,
            ErrorsEnum::EnvLoaderError(msg) => msg@,
            ErrorsEnum::ClientError => "error setting client"@,
            ErrorsEnum::FixerApiError => "error with fixer api"@,
            ErrorsEnum::WrongCurrency(msg) => msg@,
            ErrorsEnum::ProductCategoryError(msg) => msg@,
            ErrorsEnum::DatabaseError(msg) => msg@,
        }
    }

    /// The response the error is answered with at `path`.
    pub fn get_response<'a>(&'a self, path: &'a str) -> (r: HttpErrorResponse<'a>)
        ensures
            r.status == self.spec_status(),
            r.body.status == self.spec_body_status(),
            r.body.error@ == reason_phrase(r.body.status),
            r.body.message@ == self.spec_message(),
            r.body.path == path,
            clock_timestamp(r.body.timestamp@),
    {
        match self {
            ErrorsEnum::WrongCredentials => HttpErrorResponse { status: 403, body: ErrorResponseBody::forbidden(path) },
            ErrorsEnum::TokenError(msg) => HttpErrorResponse { status: 500, body: ErrorResponseBody::internal_server_error(path, msg.as_str()) },
            ErrorsEnum::NotFound(msg) => HttpErrorResponse { status: 404, body: ErrorResponseBody::not_found(path, msg.as_str()) },
            ErrorsEnum::Forbidden => HttpErrorResponse { status: 403, body: ErrorResponseBody::forbidden(path) },
            ErrorsEnum::CreationError(msg) => HttpErrorResponse { status: 500, body: ErrorResponseBody::internal_server_error(path, msg.as_str()) },
            ErrorsEnum::UpdateError(msg) => HttpErrorResponse { status: 500, body: ErrorResponseBody::internal_server_error(path, msg.as_str()) },
            ErrorsEnum::DeletionError(msg) => HttpErrorResponse { status: 500, body: ErrorResponseBody::internal_server_error(path, msg.as_str()) },
            ErrorsEnum::DieselError(msg) => HttpErrorResponse { status: 500, body: ErrorResponseBody::internal_server_error(path, msg.as_str()) },
            ErrorsEnum::DTONotValid(msg) => HttpErrorResponse { status: 400, body: ErrorResponseBody::bad_request(path, msg.as_str()) },
            ErrorsEnum::JsonParsingError(msg) => HttpErrorResponse { status: 400, body: ErrorResponseBody::bad_request(path, msg.as_str()) },
            ErrorsEnum::CategoriesAlreadyAssociated(msg) => HttpErrorResponse { status: 400, body: ErrorResponseBody::bad_request(path, msg.as_str()) },
            ErrorsEnum::CategoriesNotAssociated(msg) => HttpErrorResponse { status: 400, body: ErrorResponseBody::bad_request(path, msg.as_str()) },
            ErrorsEnum::NoPropertyError(msg) => HttpErrorResponse { status: 500, body: ErrorResponseBody::internal_server_error(path, msg.as_str()) },
            ErrorsEnum::EnvLoaderError(msg) => HttpErrorResponse { status: 500, body: ErrorResponseBody::internal_server_error(path, msg.as_str()) },
            ErrorsEnum::ClientError => HttpErrorResponse { status: 500, body: ErrorResponseBody::internal_server_error(path, "error setting client") },
            ErrorsEnum::FixerApiError => HttpErrorResponse { status: 500, body: ErrorResponseBody::internal_server_error(path, "error with fixer api") },
            ErrorsEnum::WrongCurrency(msg) => HttpErrorResponse { status: 400, body: ErrorResponseBody::bad_request(path, msg.as_str()) },
            ErrorsEnum::ProductCategoryError(msg) => HttpErrorResponse { status: 400, body: ErrorResponseBody::bad_request(path, msg.as_str()) },
            ErrorsEnum::DatabaseError(msg) => HttpErrorResponse { status: 500, body: ErrorResponseBody::internal_server_error(path, msg.as_str()) },
        }
    }
}

/// An error's response carries the status its body states.
pub proof fn lemma_status_matches_body(e: ErrorsEnum)
    ensures
        e.spec_status() == e.spec_body_status(),
{
}

} // verus!
