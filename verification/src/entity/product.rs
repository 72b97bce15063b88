//! The single-sort option of product lists, given as `field,order`.

use vstd::prelude::*;
use crate::shared::errors::error_enum::ErrorsEnum;
use crate::text::first_two_segments;

verus! {

pub const DEFAULT_SORT_ORDER: &'static str = "asc";
pub const DEFAULT_SORT_FIELD: &'static str = "id";

/// A sort of a product list: the column and the order keyword.
pub struct ProductSort {
    pub field: String,
    pub order: String,
}

/// The column a sort field names (`user` names the `userid` column), or the
/// message it is refused with; names are matched exactly.
pub open spec fn spec_validate_field(field: Seq<char>) -> Result<Seq<char>, Seq<char>> {
    if field == "id"@ || field == "name"@ || field == "price"@ {
        Ok(field)
    } else if field == "user"@ {
        Ok("userid"@)
    } else {
        Err("no property '"@ + field + "' found"@)
    }
}

/// The order keyword of a sort, or the message it is refused with; keywords
/// are matched exactly.
pub open spec fn spec_validate_order(order: Seq<char>) -> Result<Seq<char>, Seq<char>> {
    if order == "asc"@ || order == "desc"@ {
        Ok(order)
    } else {
        Err("no order '"@ + order + "' found"@)
    }
}

/// A sort written as `field` or `field,order`, with `asc` as default order.
pub open spec fn spec_parse_sort(sort: Seq<char>) -> Result<(Seq<char>, Seq<char>), Seq<char>> {
    let field = first_two_segments(sort).0;
    let order = match first_two_segments(sort).1 {
        Some(o) => o,
        None => DEFAULT_SORT_ORDER@,
    };
    match spec_validate_field(field) {
        Err(m) => Err(m),
        Ok(f) => match spec_validate_order(order) {
            Err(m) => Err(m),
            Ok(o) => Ok((f, o)),
        },
    }
}

fn no_property(prefix: &str, word: &str) -> (e: ErrorsEnum)
    ensures
        e matches ErrorsEnum::NoPropertyError(m) && m@ == prefix@ + word@ + "' found"@,
{
    let mut m = crate::text::to_owned_string(prefix);
    crate::text::push_str(&mut m, word);
    crate::text::push_str(&mut m, "' found");
    ErrorsEnum::NoPropertyError(m)
}

fn validate_field(field: &str) -> (r: Result<String, ErrorsEnum>)
    ensures
        match (r, spec_validate_field(field@)) {
            (Ok(a), Ok(b)) => a@ == b,
            (Err(ErrorsEnum::NoPropertyError(m)), Err(t)) => m@ == t,
            _ => false,
        },
{
    if crate::text::str_eq(field, "id") || crate::text::str_eq(field, "name") || crate::text::str_eq(
        field,
        "price",
    ) {
        Ok(crate::text::to_owned_string(field))
    } else if crate::text::str_eq(field, "user") {
        Ok(crate::text::to_owned_string("userid"))
    } else {
        Err(no_property("no property '", field))
    }
}

fn validate_order(order: &str) -> (r: Result<String, ErrorsEnum>)
    ensures
        match (r, spec_validate_order(order@)) {
            (Ok(a), Ok(b)) => a@ == b,
            (Err(ErrorsEnum::NoPropertyError(m)), Err(t)) => m@ == t,
            _ => false,
        },
{
    if crate::text::str_eq(order, "asc") || crate::text::str_eq(order, "desc") {
        Ok(crate::text::to_owned_string(order))
    } else {
        Err(no_property("no order '", order))
    }
}

impl ProductSort {
    /// Reads a sort written as `field` or `field,order`.
    pub fn from_str(sort: &str) -> (r: Result<ProductSort, ErrorsEnum>)
        ensures
            match (r, spec_parse_sort(sort@)) {
                (Ok(a), Ok(b)) => a.field@ == b.0 && a.order@ == b.1,
                (Err(ErrorsEnum::NoPropertyError(m)), Err(t)) => m@ == t,
                _ => false,
            },
    {
        let (field, order) = crate::text::split_first_two(sort);
        let field = crate::text::string_of(&field);
        let order = match order {
            Some(o) => crate::text::string_of(&o),
            None => crate::text::to_owned_string(DEFAULT_SORT_ORDER),
        };
        let field = match validate_field(field.as_str()) {
            Ok(f) => f,
            Err(e) => return Err(e),
        };
        let order = match validate_order(order.as_str()) {
            Ok(o) => o,
            Err(e) => return Err(e),
        };
        Ok(ProductSort { field, order })
    }
}

} // verus!
