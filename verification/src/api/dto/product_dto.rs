//! Request bodies that create or change a product.

use vstd::prelude::*;
use crate::shared::entity::product::{NewProduct, UpdateProduct};

verus! {

/// The longest product name accepted, in characters.
pub const PRODUCT_NAME_MAX_LENGTH: usize = 300;

/// The length of a currency code, in characters.
pub const CURRENCY_CODE_LENGTH: usize = 3;

/// A product name holds 1 to 300 characters and a currency code exactly 3.
pub open spec fn valid_product_texts(name: Seq<char>, currency: Seq<char>) -> bool {
    &&& 1 <= name.len() <= PRODUCT_NAME_MAX_LENGTH
    &&& currency.len() == CURRENCY_CODE_LENGTH
}

/// A product's texts are valid exactly when the name holds 1 to 300
/// characters and the currency code 3, whatever the characters are.
pub proof fn lemma_product_texts_rule(name: Seq<char>, currency: Seq<char>)
    ensures
        valid_product_texts(name, currency) <==> (1 <= name.len() && name.len() <= 300 && currency.len()
            == 3),
{
}

fn texts_valid(name: &str, currency: &str) -> (b: bool)
    ensures
        b == valid_product_texts(name@, currency@),
{
    let n = name.unicode_len();
    let c = currency.unicode_len();
    1 <= n && n <= PRODUCT_NAME_MAX_LENGTH && c == CURRENCY_CODE_LENGTH
}

/// The body of a request that creates a product; the price is the bit
/// pattern of the double that was sent, in the given currency.
pub struct CreateProductDto {
    pub name: String,
    pub currency: String,
    pub price_bits: u64,
}

impl CreateProductDto {
    /// The product to insert for the user, with the price as sent.
    pub fn to_new_product(&self, user_id: i64) -> (p: NewProduct<'_>)
        ensures
            p.id.is_none(),
            p.name@ == self.name@,
            p.price_bits == self.price_bits,
            p.userid == user_id,
    {
        NewProduct::new(self.name.as_str(), self.price_bits, user_id)
    }

    /// Whether the name and the currency meet their length rules (that the
    /// price is not negative is a rule on the double itself, checked where it
    /// is read).
    pub fn texts_valid(&self) -> (b: bool)
        ensures
            b == valid_product_texts(self.name@, self.currency@),
    {
        texts_valid(self.name.as_str(), self.currency.as_str())
    }
}

/// The body of a request that changes a product; the price is the bit
/// pattern of the double that was sent, in the given currency.
pub struct UpdateProductDto {
    pub name: String,
    pub currency: String,
    pub price_bits: u64,
}

impl UpdateProductDto {
    /// The new values of the product, owned by the user, with the price as sent.
    pub fn to_update_product(&self, user_id: i64) -> (p: UpdateProduct<'_>)
        ensures
            p.name@ == self.name@,
            p.price_bits == self.price_bits,
            p.userid == user_id,
    {
        UpdateProduct::new(self.name.as_str(), self.price_bits, user_id)
    }

    /// Whether the name and the currency meet their length rules (that the
    /// price is not negative is a rule on the double itself, checked where it
    /// is read).
    pub fn texts_valid(&self) -> (b: bool)
        ensures
            b == valid_product_texts(self.name@, self.currency@),
    {
        texts_valid(self.name.as_str(), self.currency.as_str())
    }
}

} // verus!
