//! The error kinds of the service and how each is answered.

use vstd::prelude::*;
use crate::errors::error_response_body::{clock_timestamp, reason_phrase, ErrorResponseBody, HttpErrorResponse};

verus! {
/// The errors a request can end with.
#[derive(Debug, Clone, PartialEq, Eq)]
pub enum ErrorsEnum {
    WrongCredentials,
    TokenError(String),
    NotFound(String),
    Forbidden,
    CreationError(String),
    UpdateError(String),
    DeletionError(String),
    DieselError(String),
    DTONotValid(String),
    JsonParsingError(String),
    CategoryAssociationError(String),
    NoPropertyError(String),
    EnvLoaderError(String),
    FixerApiError,
    WrongCurrency(String),
    ProductCategoryError(String),
    DatabaseError(String),
}

/// The abstract value of an error: its kind and the text of its message.
pub ghost enum ErrorView {
    WrongCredentials,
    TokenError(Seq<char>),
    NotFound(Seq<char>),
    Forbidden,
    CreationError(Seq<char>),
    UpdateError(Seq<char>),
    DeletionError(Seq<char>),
    DieselError(Seq<char>),
    DTONotValid(Seq<char>),
    JsonParsingError(Seq<char>),
    CategoryAssociationError(Seq<char>),
    NoPropertyError(Seq<char>),
    EnvLoaderError(Seq<char>),
    FixerApiError,
    WrongCurrency(Seq<char>),
    ProductCategoryError(Seq<char>),
    DatabaseError(Seq<char>),
}

impl View for ErrorsEnum {
    type V = ErrorView;

    open spec fn view(&self) -> ErrorView {
        match self {
            ErrorsEnum::WrongCredentials => ErrorView::WrongCredentials,
            ErrorsEnum::TokenError(msg) => ErrorView::TokenError(msg@),
            ErrorsEnum::NotFound(msg) => ErrorView::NotFound(msg@),
            ErrorsEnum::Forbidden => ErrorView::Forbidden,
            ErrorsEnum::CreationError(msg) => ErrorView::CreationError(msg@),
            ErrorsEnum::UpdateError(msg) => ErrorView::UpdateError(msg@),
            ErrorsEnum::DeletionError(msg) => ErrorView::DeletionError(msg@),
            ErrorsEnum::DieselError(msg) => ErrorView::DieselError(msg@),
            ErrorsEnum::DTONotValid(msg) => ErrorView::DTONotValid(msg@),
            ErrorsEnum::JsonParsingError(msg) => ErrorView::JsonParsingError(msg@),
            ErrorsEnum::CategoryAssociationError(msg) => ErrorView::CategoryAssociationError(msg@),
            ErrorsEnum::NoPropertyError(msg) => ErrorView::NoPropertyError(msg@),
            ErrorsEnum::EnvLoaderError(msg) => ErrorView::EnvLoaderError(msg@),
            ErrorsEnum::FixerApiError => ErrorView::FixerApiError,
            ErrorsEnum::WrongCurrency(msg) => ErrorView::WrongCurrency(msg@),
            ErrorsEnum::ProductCategoryError(msg) => ErrorView::ProductCategoryError(msg@),
            ErrorsEnum::DatabaseError(msg) => ErrorView::DatabaseError(msg@),
        }
    }
}

pub const TOKEN_PARSING_ERROR_MSG: &'static str = "error parsing the token";
pub const TOKEN_GENERATION_ERROR_MSG: &'static str = "error generating the token";
pub const DTO_NOT_VALID_ERROR_MSG: &'static str = "DTO was not valid";
pub const CATEGORY_NOT_FOUND_MSG: &'static str = "category not found";
pub const PRODUCT_NOT_FOUND_MSG: &'static str = "product not found";
pub const USER_NOT_FOUND_MSG: &'static str = "user not found";
pub const SUBCATEGORY_UPDATE_ERROR_MSG: &'static str = "error updating subcategory";

impl ErrorsEnum {
    /// The HTTP status the error is answered with.
    pub open spec fn spec_status(&self) -> u16 {
        match self {
            ErrorsEnum::WrongCredentials => 403,
            ErrorsEnum::TokenError(_) => 500,
            ErrorsEnum::NotFound(_) => 404,
            ErrorsEnum::Forbidden => 403,
            ErrorsEnum::CreationError(_) => 500,
            ErrorsEnum::UpdateError(_) => 500,
            ErrorsEnum::DeletionError(_) => 500,
            ErrorsEnum::DieselError(_) => 500,
            ErrorsEnum::DTONotValid(_) => 400,
            ErrorsEnum::JsonParsingError(_) => 400,
            ErrorsEnum::CategoryAssociationError(_) => 400,
            ErrorsEnum::NoPropertyError(_) => 500,
            ErrorsEnum::EnvLoaderError(_) => 500,
            ErrorsEnum::FixerApiError => 500,
            ErrorsEnum::WrongCurrency(_) => 400,
            ErrorsEnum::ProductCategoryError(_) => 400,
            ErrorsEnum::DatabaseError(_) => 500,
        }
    }

    /// The status written in the body of the error's response: the status
    /// the response is sent with.
    pub open spec fn spec_body_status(&self) -> u16 {
        self.spec_status()
    }

    /// The message in the body of the error's response.
    pub open spec fn spec_message(&self) -> Seq<char> {
        match self {
            ErrorsEnum::WrongCredentials => "Access Denied"@,
            ErrorsEnum::TokenError(msg) => msg@,
            ErrorsEnum::NotFound(msg) => msg@,
            ErrorsEnum::Forbidden => "Access Denied"@,
            ErrorsEnum::CreationError(msg) => msg@,
            ErrorsEnum::UpdateError(msg) => msg@,
            ErrorsEnum::DeletionError(msg) => msg@,
            ErrorsEnum::DieselError(msg) => msg@,
            ErrorsEnum::DTONotValid(msg) => msg@,
            ErrorsEnum::JsonParsingError(msg) => msg@,
            ErrorsEnum::CategoryAssociationError(msg) => msg@,
            ErrorsEnum::NoPropertyError(msg) => msg@,
            ErrorsEnum::EnvLoaderError(msg) => msg@,
            ErrorsEnum::FixerApiError => "error with fixer api"@,
            ErrorsEnum::WrongCurrency(msg) => msg@,
            ErrorsEnum::ProductCategoryError(msg) => msg@,
            ErrorsEnum::DatabaseError(msg) => msg@,
        }
    }

    /// The response the error is answered with at `path`.
    pub fn get_response<'a>(&'a self, path: &'a str) -> (r: HttpErrorResponse<'a>)
        ensures
            r.status == self.spec_status(),
            r.body.status == self.spec_body_status(),
            r.body.error@ == reason_phrase(r.body.status),
            r.body.message@ == self.spec_message(),
            r.body.path == path,
            clock_timestamp(r.body.timestamp@),
    {
        match self {
            ErrorsEnum::WrongCredentials => HttpErrorResponse { status: 403, body: ErrorResponseBody::forbidden(path) },
            ErrorsEnum::TokenError(msg) => HttpErrorResponse { status: 500, body: ErrorResponseBody::internal_server_error(path, msg.as_str()) },
            ErrorsEnum::NotFound(msg) => HttpErrorResponse { status: 404, body: ErrorResponseBody::not_found(path, msg.as_str()) },
            ErrorsEnum::Forbidden => HttpErrorResponse { status: 403, body: ErrorResponseBody::forbidden(path) },
            ErrorsEnum::CreationError(msg) => HttpErrorResponse { status: 500, body: ErrorResponseBody::internal_server_error(path, msg.as_str()) },
            ErrorsEnum::UpdateError(msg) => HttpErrorResponse { status: 500, body: ErrorResponseBody::internal_server_error(path, msg.as_str()) },
            ErrorsEnum::DeletionError(msg) => HttpErrorResponse { status: 500, body: ErrorResponseBody::internal_server_error(path, msg.as_str()) },
            ErrorsEnum::DieselError(msg) => HttpErrorResponse { status: 500, body: ErrorResponseBody::internal_server_error(path, msg.as_str()) },
            ErrorsEnum::DTONotValid(msg) => HttpErrorResponse { status: 400, body: ErrorResponseBody::bad_request(path, msg.as_str()) },
            ErrorsEnum::JsonParsingError(msg) => HttpErrorResponse { status: 400, body: ErrorResponseBody::bad_request(path, msg.as_str()) },
            ErrorsEnum::CategoryAssociationError(msg) => HttpErrorResponse { status: 400, body: ErrorResponseBody::bad_request(path, msg.as_str()) },
            ErrorsEnum::NoPropertyError(msg) => HttpErrorResponse { status: 500, body: ErrorResponseBody::internal_server_error(path, msg.as_str()) },
            ErrorsEnum::EnvLoaderError(msg) => HttpErrorResponse { status: 500, body: ErrorResponseBody::internal_server_error(path, msg.as_str()) },
            ErrorsEnum::FixerApiError => HttpErrorResponse { status: 500, body: ErrorResponseBody::internal_server_error(path, "error with fixer api") },
            ErrorsEnum::WrongCurrency(msg) => HttpErrorResponse { status: 400, body: ErrorResponseBody::bad_request(path, msg.as_str()) },
            ErrorsEnum::ProductCategoryError(msg) => HttpErrorResponse { status: 400, body: ErrorResponseBody::bad_request(path, msg.as_str()) },
            ErrorsEnum::DatabaseError(msg) => HttpErrorResponse { status: 500, body: ErrorResponseBody::internal_server_error(path, msg.as_str()) },
        }
    }

    /// Whether the error is answered with a server error (a status of 500
    /// or more), which is logged as an error rather than a warning.
    pub fn is_server_error(&self) -> (b: bool)
        ensures
            b == (self.spec_status() >= 500),
    {
        match self {
            ErrorsEnum::WrongCredentials => false,
            ErrorsEnum::TokenError(_) => true,
            ErrorsEnum::NotFound(_) => false,
            ErrorsEnum::Forbidden => false,
            ErrorsEnum::CreationError(_) => true,
            ErrorsEnum::UpdateError(_) => true,
            ErrorsEnum::DeletionError(_) => true,
            ErrorsEnum::DieselError(_) => true,
            ErrorsEnum::DTONotValid(_) => false,
            ErrorsEnum::JsonParsingError(_) => false,
            ErrorsEnum::CategoryAssociationError(_) => false,
            ErrorsEnum::NoPropertyError(_) => true,
            ErrorsEnum::EnvLoaderError(_) => true,
            ErrorsEnum::FixerApiError => true,
            ErrorsEnum::WrongCurrency(_) => false,
            ErrorsEnum::ProductCategoryError(_) => false,
            ErrorsEnum::DatabaseError(_) => true,
        }
    }

    /// The text the error is shown with.
    pub open spec fn spec_display(&self) -> Seq<char> {
        match self {
            ErrorsEnum::WrongCredentials => "Wrong credentials"@,
            ErrorsEnum::TokenError(msg) => "Token error: "@ + msg@,
            ErrorsEnum::NotFound(msg) => "Not found: "@ + msg@,
            ErrorsEnum::Forbidden => "Forbidden"@,
            ErrorsEnum::CreationError(msg) => "Creation error: "@ + msg@,
            ErrorsEnum::UpdateError(msg) => "Update error: "@ + msg@,
            ErrorsEnum::DeletionError(msg) => "Deletion error: "@ + msg@,
            ErrorsEnum::DieselError(msg) => "Diesel error: "@ + msg@,
            ErrorsEnum::DTONotValid(msg) => "DTO not valid: "@ + msg@,
            ErrorsEnum::JsonParsingError(msg) => "JSON parsing error: "@ + msg@,
            ErrorsEnum::CategoryAssociationError(msg) => "Category Association error: "@ + msg@,
            ErrorsEnum::NoPropertyError(msg) => "Property error: "@ + msg@,
            ErrorsEnum::EnvLoaderError(msg) => "Env loader error: "@ + msg@,
            ErrorsEnum::FixerApiError => "Fixer API error"@,
            ErrorsEnum::WrongCurrency(msg) => "Wrong currency: "@ + msg@,
            ErrorsEnum::ProductCategoryError(msg) => "Product Category error: "@ + msg@,
            ErrorsEnum::DatabaseError(msg) => "Database error: "@ + msg@,
        }
    }

    /// The text the error is shown with.
    pub fn to_message(&self) -> (s: String)
        ensures
            s@ == self.spec_display(),
    {
        match self {
            ErrorsEnum::WrongCredentials => crate::text::to_owned_string("Wrong credentials"),
            ErrorsEnum::TokenError(msg) => {
                let mut s = crate::text::to_owned_string("Token error: ");
                crate::text::push_str(&mut s, msg.as_str());
                s
            },
            ErrorsEnum::NotFound(msg) => {
                let mut s = crate::text::to_owned_string("Not found: ");
                crate::text::push_str(&mut s, msg.as_str());
                s
            },
            ErrorsEnum::Forbidden => crate::text::to_owned_string("Forbidden"),
            ErrorsEnum::CreationError(msg) => {
                let mut s = crate::text::to_owned_string("Creation error: ");
                crate::text::push_str(&mut s, msg.as_str());
                s
            },
            ErrorsEnum::UpdateError(msg) => {
                let mut s = crate::text::to_owned_string("Update error: ");
                crate::text::push_str(&mut s, msg.as_str());
                s
            },
            ErrorsEnum::DeletionError(msg) => {
                let mut s = crate::text::to_owned_string("Deletion error: ");
                crate::text::push_str(&mut s, msg.as_str());
                s
            },
            ErrorsEnum::DieselError(msg) => {
                let mut s = crate::text::to_owned_string("Diesel error: ");
                crate::text::push_str(&mut s, msg.as_str());
                s
            },
            ErrorsEnum::DTONotValid(msg) => {
                let mut s = crate::text::to_owned_string("DTO not valid: ");
                crate::text::push_str(&mut s, msg.as_str());
                s
            },
            ErrorsEnum::JsonParsingError(msg) => {
                let mut s = crate::text::to_owned_string("JSON parsing error: ");
                crate::text::push_str(&mut s, msg.as_str());
                s
            },
            ErrorsEnum::CategoryAssociationError(msg) => {
                let mut s = crate::text::to_owned_string("Category Association error: ");
                crate::text::push_str(&mut s, msg.as_str());
                s
            },
            ErrorsEnum::NoPropertyError(msg) => {
                let mut s = crate::text::to_owned_string("Property error: ");
                crate::text::push_str(&mut s, msg.as_str());
                s
            },
            ErrorsEnum::EnvLoaderError(msg) => {
                let mut s = crate::text::to_owned_string("Env loader error: ");
                crate::text::push_str(&mut s, msg.as_str());
                s
            },
            ErrorsEnum::FixerApiError => crate::text::to_owned_string("Fixer API error"),
            ErrorsEnum::WrongCurrency(msg) => {
                let mut s = crate::text::to_owned_string("Wrong currency: ");
                crate::text::push_str(&mut s, msg.as_str());
                s
            },
            ErrorsEnum::ProductCategoryError(msg) => {
                let mut s = crate::text::to_owned_string("Product Category error: ");
                crate::text::push_str(&mut s, msg.as_str());
                s
            },
            ErrorsEnum::DatabaseError(msg) => {
                let mut s = crate::text::to_owned_string("Database error: ");
                crate::text::push_str(&mut s, msg.as_str());
                s
            },
        }
    }
}

/// An error's response carries the status its body states.
pub proof fn lemma_status_matches_body(e: ErrorsEnum)
    ensures
        e.spec_status() == e.spec_body_status(),
{
}

} // verus!
