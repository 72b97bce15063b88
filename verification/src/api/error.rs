//! An error of a service operation together with the path it occurred at.

use vstd::prelude::*;
use crate::errors::error_response_body::{clock_timestamp, HttpErrorResponse};
use crate::shared::errors::error_enum::ErrorsEnum;

verus! {

/// An error answered at a request path.
#[derive(Debug)]
pub struct ServiceError {
    pub path: String,
    pub error: ErrorsEnum,
}

impl ServiceError {
    pub fn new(path: String, error: ErrorsEnum) -> (e: ServiceError)
        ensures
            e.path@ == path@,
            e.error == error,
    {
        ServiceError { path, error }
    }

    /// The text the error is shown with: that of the underlying error.
    pub fn to_message(&self) -> (s: String)
        ensures
            s@ == self.error.spec_display(),
    {
        self.error.to_message()
    }

    /// The HTTP status the error is answered with.
    pub fn status_code(&self) -> (s: u16)
        ensures
            s == self.error.spec_status(),
    {
        self.error.get_response(self.path.as_str()).status
    }

    /// The response the error is answered with.
    pub fn error_response(&self) -> (r: HttpErrorResponse<'_>)
        ensures
            r.status == self.error.spec_status(),
            r.body.status == self.error.spec_body_status(),
            r.body.message@ == self.error.spec_message(),
            r.body.path@ == self.path@,
            clock_timestamp(r.body.timestamp@),
    {
        self.error.get_response(self.path.as_str())
    }
}

} // verus!
