//! The product records that the till, the stock screens and the backend share.

use chrono::NaiveDate;
use rust_decimal::Decimal;
use vstd::prelude::*;

use crate::decimal::decimal;
use crate::decimal::zero;

verus! {

/// A discounted multi-unit packaging variant of an item.
#[derive(Debug, PartialEq)]
pub struct BulkItem {
    pub barcode: Option<String>,
    pub name: String,
    pub price: Decimal,
    pub quantity: i32,
    pub image: Option<Vec<u8>>,
}

/// What a [`BulkItem`] holds, as mathematical values.
pub struct BulkItemView {
    pub barcode: Option<Seq<char>>,
    pub name: Seq<char>,
    pub price: Decimal,
    pub quantity: i32,
    pub image: Option<Seq<u8>>,
}

/// A product record.
#[derive(Debug, PartialEq)]
pub struct Item {
    pub barcode: String,
    pub name: String,
    pub cost: Decimal,
    pub price: Decimal,
    pub quantity: i32,
    pub image: Option<Vec<u8>>,
    pub expire_date: Vec<NaiveDate>,
    pub bulk_item: Vec<BulkItem>,
}

/// What an [`Item`] holds, as mathematical values.
pub struct ItemView {
    pub barcode: Seq<char>,
    pub name: Seq<char>,
    pub cost: Decimal,
    pub price: Decimal,
    pub quantity: i32,
    pub image: Option<Seq<u8>>,
    pub expire_date: Seq<NaiveDate>,
    pub bulk_item: Seq<BulkItemView>,
}

/// The barcode and name of an item, as a listing shows them.
pub struct Header {
    pub barcode: String,
    pub name: String,
}

/// The bytes of an optional image, as a sequence.
pub open spec fn image_view(image: Option<Vec<u8>>) -> Option<Seq<u8>> {
    match image {
        Some(bytes) => Some(bytes@),
        None => None,
    }
}

/// The views of a list of bulk items, in order.
pub open spec fn bulk_items_view(items: Seq<BulkItem>) -> Seq<BulkItemView> {
    items.map_values(|b: BulkItem| b@)
}

/// The views of a list of items, in order.
pub open spec fn items_view(items: Seq<Item>) -> Seq<ItemView> {
    items.map_values(|i: Item| i@)
}

impl View for BulkItem {
    type V = BulkItemView;

    open spec fn view(&self) -> BulkItemView {
        BulkItemView {
            barcode: match self.barcode {
                Some(code) => Some(code@),
                None => None,
            },
            name: self.name@,
            price: self.price,
            quantity: self.quantity,
            image: image_view(self.image),
        }
    }
}

impl View for Item {
    type V = ItemView;

    open spec fn view(&self) -> ItemView {
        ItemView {
            barcode: self.barcode@,
            name: self.name@,
            cost: self.cost,
            price: self.price,
            quantity: self.quantity,
            image: image_view(self.image),
            expire_date: self.expire_date@,
            bulk_item: bulk_items_view(self.bulk_item@),
        }
    }
}

impl BulkItemView {
    /// The blank bulk item: no barcode, no name, price zero, quantity zero, no image.
    pub open spec fn blank() -> BulkItemView {
        BulkItemView {
            barcode: None,
            name: Seq::empty(),
            price: zero(),
            quantity: 0,
            image: None,
        }
    }
}

impl ItemView {
    /// The blank record: empty texts, cost and price zero, quantity zero, no image,
    /// no expiry dates and no bulk items.
    pub open spec fn blank() -> ItemView {
        ItemView {
            barcode: Seq::empty(),
            name: Seq::empty(),
            cost: zero(),
            price: zero(),
            quantity: 0,
            image: None,
            expire_date: Seq::empty(),
            bulk_item: Seq::empty(),
        }
    }
}

/// A copy of an optional image.
pub fn clone_image(image: &Option<Vec<u8>>) -> (copy: Option<Vec<u8>>)
    ensures
        image_view(copy) == image_view(*image),
{
    match image {
        Some(bytes) => {
            let copy = bytes.clone();
            assert(copy@ =~= bytes@);
            Some(copy)
        },
        None => None,
    }
}

/// A copy of a list of dates.
pub fn clone_dates(dates: &Vec<NaiveDate>) -> (copy: Vec<NaiveDate>)
    ensures
        copy@ == dates@,
{
    let mut copy: Vec<NaiveDate> = Vec::new();
    let mut i: usize = 0;
    while i < dates.len()
        invariant
            i <= dates.len(),
            copy@ == dates@.take(i as int),
        decreases dates.len() - i,
    {
        copy.push(dates[i]);
        assert(dates@.take(i + 1) =~= dates@.take(i as int).push(dates@[i as int]));
        i += 1;
    }
    assert(dates@.take(dates.len() as int) =~= dates@);
    copy
}

/// A copy of a list of bulk items.
pub fn clone_bulk_items(items: &Vec<BulkItem>) -> (copy: Vec<BulkItem>)
    ensures
        bulk_items_view(copy@) == bulk_items_view(items@),
{
    let mut copy: Vec<BulkItem> = Vec::new();
    let mut i: usize = 0;
    while i < items.len()
        invariant
            i <= items.len(),
            copy.len() == i,
            forall|k: int| 0 <= k < i ==> (#[trigger] copy@[k])@ == items@[k]@,
        decreases items.len() - i,
    {
        copy.push(items[i].clone());
        i += 1;
    }
    assert(bulk_items_view(copy@) =~= bulk_items_view(items@));
    copy
}

impl Clone for BulkItem {
    fn clone(&self) -> (copy: Self)
        ensures
            copy@ == self@,
    {
        BulkItem {
            barcode: match &self.barcode {
                Some(code) => Some(code.clone()),
                None => None,
            },
            name: self.name.clone(),
            price: self.price,
            quantity: self.quantity,
            image: clone_image(&self.image),
        }
    }
}

impl Default for BulkItem {
    fn default() -> (blank: Self)
        ensures
            blank@ == BulkItemView::blank(),
    {
        BulkItem {
            barcode: None,
            name: String::new(),
            price: decimal(0, 0),
            quantity: 0,
            image: None,
        }
    }
}

impl Clone for Item {
    fn clone(&self) -> (copy: Self)
        ensures
            copy@ == self@,
    {
        Item {
            barcode: self.barcode.clone(),
            name: self.name.clone(),
            cost: self.cost,
            price: self.price,
            quantity: self.quantity,
            image: clone_image(&self.image),
            expire_date: clone_dates(&self.expire_date),
            bulk_item: clone_bulk_items(&self.bulk_item),
        }
    }
}

impl Default for Item {
    fn default() -> (blank: Self)
        ensures
            blank@ == ItemView::blank(),
    {
        let blank = Item {
            barcode: String::new(),
            name: String::new(),
            cost: decimal(0, 0),
            price: decimal(0, 0),
            quantity: 0,
            image: None,
            expire_date: Vec::new(),
            bulk_item: Vec::new(),
        };
        assert(bulk_items_view(blank.bulk_item@) =~= Seq::empty());
        blank
    }
}

/// A copy of a list of items.
pub fn clone_items(items: &Vec<Item>) -> (copy: Vec<Item>)
    ensures
        items_view(copy@) == items_view(items@),
{
    let mut copy: Vec<Item> = Vec::new();
    let mut i: usize = 0;
    while i < items.len()
        invariant
            i <= items.len(),
            copy.len() == i,
            forall|k: int| 0 <= k < i ==> (#[trigger] copy@[k])@ == items@[k]@,
        decreases items.len() - i,
    {
        copy.push(items[i].clone());
        i += 1;
    }
    assert(items_view(copy@) =~= items_view(items@));
    copy
}

/// Sum of two counts.
pub fn add(left: u64, right: u64) -> (sum: u64)
    requires
        left + right <= u64::MAX,
    ensures
        sum == left + right,
{
    left + right
}

} // verus!
