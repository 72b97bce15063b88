//! The error kinds of the authentication and product endpoints and how each is answered.

use vstd::prelude::*;
use crate::errors::error_response_body::{clock_timestamp, reason_phrase, ErrorResponseBody, HttpErrorResponse};

verus! {
/// The errors a request can end with.
#[derive(Debug, Clone, PartialEq, Eq)]
pub enum ErrorsEnum {
    WrongCredentials,
    TokenParsing(String),
    TokenGenerationError(String),
    NotFound(String),
    Forbidden,
    CreationError(String),
    UpdateError(String),
    DeletionError(String),
    DieselError(String),
}

pub const TOKEN_PARSING_ERROR_MSG: &'static str = "Error parsing the token";
pub const TOKEN_GENERATION_ERROR_MSG: &'static str = "Error generating the token";

impl ErrorsEnum {
    /// The HTTP status the error is answered with.
    pub open spec fn spec_status(&self) -> u16 {
        match self {
            ErrorsEnum::WrongCredentials => 403,
            ErrorsEnum::TokenParsing(_) => 500,
            ErrorsEnum::TokenGenerationError(_) => 500,
            ErrorsEnum::NotFound(_) => 404,
            ErrorsEnum::Forbidden => 401,
            ErrorsEnum::CreationError(_) => 500,
            ErrorsEnum::UpdateError(_) => 500,
            ErrorsEnum::DeletionError(_) => 500,
            ErrorsEnum::DieselError(_) => 500,
        }
    }

    /// The status written in the body of the error's response.
    pub open spec fn spec_body_status(&self) -> u16 {
        match self {
            ErrorsEnum::WrongCredentials => 403,
            ErrorsEnum::TokenParsing(_) => 500,
            ErrorsEnum::TokenGenerationError(_) => 500,
            ErrorsEnum::NotFound(_) => 404,
            ErrorsEnum::Forbidden => 403,
            ErrorsEnum::CreationError(_) => 500,
            ErrorsEnum::UpdateError(_) => 500,
            ErrorsEnum::DeletionError(_) => 500,
            ErrorsEnum::DieselError(_) => 500,
        }
    }

    /// The message in the body of the error's response.
    pub open spec fn spec_message(&self) -> Seq<char> {
        match self {
            ErrorsEnum::WrongCredentials => "Access Denied"@,
            ErrorsEnum::TokenParsing(msg) => msg@,
            ErrorsEnum::TokenGenerationError(msg) => msg@,
            ErrorsEnum::NotFound(msg) => msg@,
            ErrorsEnum::Forbidden => "Access Denied"@,
            ErrorsEnum::CreationError(msg) => msg@,
            ErrorsEnum::UpdateError(msg) => msg@,
            ErrorsEnum::DeletionError(msg) => msg@,
            ErrorsEnum::DieselError(msg) => msg@,
        }
    }

    /// The response the error is answered with at `path`.
    pub fn get_response<'a>(&'a self, path: &'a str) -> (r: HttpErrorResponse<'a>)
        ensures
            r.status == self.spec_status(),
            r.body.status == self.spec_body_status(),
            r.body.error@ == reason_phrase(r.body.status),
            r.body.message@ == self.spec_message(),
            r.body.path == path,
            clock_timestamp(r.body.timestamp@),
    {
        match self {
            ErrorsEnum::WrongCredentials => HttpErrorResponse { status: 403, body: forbidden(path) },
            ErrorsEnum::TokenParsing(msg) => HttpErrorResponse { status: 500, body: internal_server_error(path, msg.as_str()) },
            ErrorsEnum::TokenGenerationError(msg) => HttpErrorResponse { status: 500, body: internal_server_error(path, msg.as_str()) },
            ErrorsEnum::NotFound(msg) => HttpErrorResponse { status: 404, body: not_found(path, msg.as_str()) },
            ErrorsEnum::Forbidden => HttpErrorResponse { status: 401, body: forbidden(path) },
            ErrorsEnum::CreationError(msg) => HttpErrorResponse { status: 500, body: internal_server_error(path, msg.as_str()) },
            ErrorsEnum::UpdateError(msg) => HttpErrorResponse { status: 500, body: internal_server_error(path, msg.as_str()) },
            ErrorsEnum::DeletionError(msg) => HttpErrorResponse { status: 500, body: internal_server_error(path, msg.as_str()) },
            ErrorsEnum::DieselError(msg) => HttpErrorResponse { status: 500, body: internal_server_error(path, msg.as_str()) },
        }
    }
}

fn internal_server_error<'a>(path: &'a str, msg: &'a str) -> (b: ErrorResponseBody<'a>)
    ensures
        clock_timestamp(b.timestamp@),
        b.status == 500,
        b.error@ == "Internal Server Error"@,
        b.message == msg,
        b.path == path,
{
    ErrorResponseBody::internal_server_error(path, msg)
}

fn not_found<'a>(path: &'a str, msg: &'a str) -> (b: ErrorResponseBody<'a>)
    ensures
        clock_timestamp(b.timestamp@),
        b.status == 404,
        b.error@ == "Not Found"@,
        b.message == msg,
        b.path == path,
{
    ErrorResponseBody::not_found(path, msg)
}

fn forbidden<'a>(path: &'a str) -> (b: ErrorResponseBody<'a>)
    ensures
        clock_timestamp(b.timestamp@),
        b.status == 403,
        b.error@ == "Forbidden"@,
        b.message@ == "Access Denied"@,
        b.path == path,
{
    ErrorResponseBody::forbidden(path)
}

/// An error's response carries the status its body states, for every error
/// but `Forbidden`, which is answered with 401 and a body that states 403.
pub proof fn lemma_status_matches_body(e: ErrorsEnum)
    requires
        !(e is Forbidden),
    ensures
        e.spec_status() == e.spec_body_status(),
{
}

} // verus!
