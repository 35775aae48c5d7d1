//! What the web front end asks the server for.

use rust_decimal::Decimal;
use vstd::prelude::*;

verus! {

/// A product, as the web front end lists it.
#[derive(Debug, PartialEq)]
pub struct Product {
    pub barcode: String,
    pub name: String,
    pub amount: u16,
    pub cost: Decimal,
    pub price: Decimal,
    pub image: Option<Vec<u8>>,
}

} // verus!
