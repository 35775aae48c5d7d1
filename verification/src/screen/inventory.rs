//! The inventory of the two-screen shell: the list of items, nothing more.

use chrono::NaiveDate;
use rust_decimal::Decimal;
use vstd::prelude::*;

verus! {

/// A discounted multi-unit packaging variant of an item.
#[derive(Debug, PartialEq)]
pub struct BulkItem {
    pub barcode: Option<String>,
    pub name: Option<String>,
    pub price: Decimal,
    pub amount: i32,
    pub image: Option<Vec<u8>>,
}

/// A product record.
#[derive(Debug, PartialEq)]
pub struct Item {
    pub barcode: String,
    pub name: String,
    pub cost: Decimal,
    pub price: Decimal,
    pub amount: i32,
    pub image: Vec<u8>,
    pub expire_date: Vec<NaiveDate>,
    pub bulk_item: Vec<BulkItem>,
}

/// The inventory: its items.
#[derive(Debug, PartialEq)]
pub struct State {
    pub items: Vec<Item>,
}

impl Default for State {
    fn default() -> (state: Self)
        ensures
            state.items@.len() == 0,
    {
        State { items: Vec::new() }
    }
}

} // verus!
