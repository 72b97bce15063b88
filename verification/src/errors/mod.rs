//! Error kinds of the service and the bodies of error responses.

pub mod authorization_error;
pub mod error_enum;
pub mod error_enums;
pub mod error_response_body;
pub mod token_error;
pub mod wrong_credentials_error;
