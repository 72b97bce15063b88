//! The currency prices are stored in, and the errors of converting a price.

use vstd::prelude::*;
use crate::shared::errors::error_enum::{ErrorView, ErrorsEnum};

verus! {

/// The currency prices are stored in.
pub const SRC_CURRENCY: &'static str = "EUR";

/// Whether a price given in the currency must be converted before it is stored.
pub fn needs_conversion(currency: &str) -> (b: bool)
    ensures
        b == (currency@ != SRC_CURRENCY@),
{
    !crate::text::str_eq(currency, SRC_CURRENCY)
}

/// The error of a currency the rate service has no rate for.
pub fn wrong_currency(currency: &str) -> (e: ErrorsEnum)
    ensures
        e@ == ErrorView::WrongCurrency("currency '"@ + currency@ + "' not valid"@),
{
    let mut s = crate::text::to_owned_string("currency '");
    crate::text::push_str(&mut s, currency);
    crate::text::push_str(&mut s, "' not valid");
    ErrorsEnum::WrongCurrency(s)
}

/// The error of a rate-service answer that cannot be read.
pub fn unreadable_rates() -> (e: ErrorsEnum)
    ensures
        e@ == ErrorView::JsonParsingError("error parsing fixer api response"@),
{
    ErrorsEnum::JsonParsingError(crate::text::to_owned_string("error parsing fixer api response"))
}

} // verus!
