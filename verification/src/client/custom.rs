//! Parts that the screens are built from.

use vstd::prelude::*;

verus! {

/// A list whose rows can be edited and taken out one by one.
pub struct DeletableList<T> {
    list: Vec<T>,
}

/// What a deletable list can be told.
#[derive(Debug, Clone, PartialEq)]
pub enum Message {
    /// The text of the row being edited is now this.
    Change(String),
    Submit,
    Delete,
    Add,
}

impl<T> View for DeletableList<T> {
    type V = Seq<T>;

    closed spec fn view(&self) -> Seq<T> {
        self.list@
    }
}

impl<T> DeletableList<T> {
    /// A deletable list of the given rows, in their order.
    pub fn new(list: Vec<T>) -> (made: Self)
        ensures
            made@ == list@,
    {
        DeletableList { list }
    }

    /// The number of rows.
    pub fn len(&self) -> (rows: usize)
        ensures
            rows == self@.len(),
    {
        self.list.len()
    }

    /// The row that is shown under the number `row`.
    pub fn get(&self, row: usize) -> (value: &T)
        requires
            row < self@.len(),
        ensures
            *value == self@[row as int],
    {
        &self.list[row]
    }
}

} // verus!
