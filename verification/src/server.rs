//! The backend's rules: how an item is put together from its rows, and what a
//! failed request is answered with.

use chrono::NaiveDate;
use vstd::prelude::*;

pub mod database;

use crate::number::ParseIntError;
use crate::shared::clone_bulk_items;
use crate::shared::clone_dates;
use crate::shared::clone_image;
use crate::shared::bulk_items_view;
use crate::shared::image_view;
use crate::shared::items_view;
use crate::shared::BulkItem;
use crate::shared::Item;
use crate::shared::ItemView;

verus! {

/// Why a request, or the take-over of the old stock, failed.
#[derive(Debug, PartialEq)]
pub enum AppError {
    /// A text that should have been a number was none.
    ParseIntError(ParseIntError),
    /// The database refused; the text is what it said.
    DatabaseError(String),
}

impl From<ParseIntError> for AppError {
    fn from(error: ParseIntError) -> (app: AppError) {
        AppError::ParseIntError(error)
    }
}

impl vstd::std_specs::convert::FromSpecImpl<ParseIntError> for AppError {
    open spec fn obeys_from_spec() -> bool {
        true
    }

    open spec fn from_spec(error: ParseIntError) -> AppError {
        AppError::ParseIntError(error)
    }
}

/// The status of every answer to a failed request: internal server error.
pub const INTERNAL_SERVER_ERROR: u16 = 500;

/// The answer to a failed request: a status, and the text that goes out under the
/// key `error`.
#[derive(Debug, PartialEq)]
pub struct ErrorResponse {
    pub status: u16,
    pub error: String,
}

impl AppError {
    /// What the error says.
    pub open spec fn text(self) -> Seq<char> {
        match self {
            AppError::ParseIntError(error) => error.text(),
            AppError::DatabaseError(said) => said@,
        }
    }

    /// What the error says.
    pub fn message(&self) -> (said: String)
        ensures
            said@ == self.text(),
    {
        match self {
            AppError::ParseIntError(error) => error.description(),
            AppError::DatabaseError(said) => said.clone(),
        }
    }

    /// The answer that the error goes out as: always an internal server error,
    /// with what the error says.
    pub fn into_response(self) -> (response: ErrorResponse)
        ensures
            response.status == INTERNAL_SERVER_ERROR,
            response.error@ == self.text(),
    {
        ErrorResponse { status: INTERNAL_SERVER_ERROR, error: self.message() }
    }
}

/// What the database holds of one item: its row, its bulk items and its expiry dates.
#[derive(Debug, PartialEq)]
pub struct Record {
    pub item: database::Item,
    pub bulk_items: Vec<BulkItem>,
    pub expire_dates: Vec<NaiveDate>,
}

/// The item that a record stands for: the fields of the row, with the expiry
/// dates and the bulk items beside them.
pub open spec fn assembled(record: Record) -> ItemView {
    ItemView {
        barcode: record.item.barcode@,
        name: record.item.name@,
        cost: record.item.cost,
        price: record.item.price,
        quantity: record.item.quantity,
        image: image_view(record.item.image),
        expire_date: record.expire_dates@,
        bulk_item: bulk_items_view(record.bulk_items@),
    }
}

/// The item that a record stands for.
pub fn assemble(record: &Record) -> (item: Item)
    ensures
        item@ == assembled(*record),
{
    Item {
        barcode: record.item.barcode.clone(),
        name: record.item.name.clone(),
        cost: record.item.cost,
        price: record.item.price,
        quantity: record.item.quantity,
        image: clone_image(&record.item.image),
        expire_date: clone_dates(&record.expire_dates),
        bulk_item: clone_bulk_items(&record.bulk_items),
    }
}

/// The items that go out for the records that were read: one for each, in their order.
pub fn get_items(records: &Vec<Record>) -> (items: Vec<Item>)
    ensures
        items_view(items@) == records@.map_values(|record: Record| assembled(record)),
{
    let mut items: Vec<Item> = Vec::new();
    let mut i: usize = 0;
    while i < records.len()
        invariant
            i <= records.len(),
            items.len() == i,
            forall|k: int| 0 <= k < i ==> (#[trigger] items@[k])@ == assembled(records@[k]),
        decreases records.len() - i,
    {
        items.push(assemble(&records[i]));
        i += 1;
    }
    assert(items_view(items@) =~= records@.map_values(|record: Record| assembled(record)));
    items
}

} // verus!
