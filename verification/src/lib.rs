//! Sunminimart: the rules of a small shop's point of sale, verified.
//!
//! [`client`] is the clerk's desktop client as a state machine, [`server`] holds
//! the backend's rules, and [`shared`] the product records that both speak of.
//! The crate root and [`screen`] hold two smaller shells: one window that shows
//! either the main page or the inventory.

use vstd::prelude::*;

pub mod calendar;
pub mod client;
pub mod decimal;
pub mod number;
pub mod screen;
pub mod server;
pub mod server_function;
pub mod shared;
pub mod text;

use crate::screen::inventory;

verus! {

/// The page that the window shows.
#[derive(Debug, PartialEq)]
pub enum Page {
    MainPage,
    InventoryPage(inventory::State),
}

/// The window: the page that it shows.
#[derive(Debug, PartialEq)]
pub struct State {
    pub page: Page,
}

/// What the main page can be told.
#[derive(Debug, Clone, Copy, PartialEq, Eq, Structural)]
pub enum MainMessage {
    /// Open the inventory.
    GotoInventory,
    /// Leave; nothing follows from it.
    Exit,
}

/// A message, addressed to one page.
#[derive(Debug, Clone, Copy, PartialEq, Eq, Structural)]
pub enum Message {
    MainMessage(MainMessage),
    InventoryMessage,
}

impl Default for Page {
    fn default() -> (page: Self)
        ensures
            page is MainPage,
    {
        Page::MainPage
    }
}

impl Default for State {
    fn default() -> (state: Self)
        ensures
            state.page is MainPage,
    {
        State { page: Page::MainPage }
    }
}

impl Page {
    /// The page shows the inventory as it is entered: without items.
    pub open spec fn is_fresh_inventory(self) -> bool {
        self matches Page::InventoryPage(inventory) && inventory.items@.len() == 0
    }
}

/// Answers a message on the main page: `GotoInventory` opens the inventory as it
/// is entered, every other message leaves the window as it is.
pub fn main_update(state: &mut State, message: Message)
    ensures
        message == Message::MainMessage(MainMessage::GotoInventory) ==> final(state).page.is_fresh_inventory(),
        message != Message::MainMessage(MainMessage::GotoInventory) ==> *final(state) == *old(state),
{
    match message {
        Message::MainMessage(MainMessage::GotoInventory) => {
            state.page = Page::InventoryPage(inventory::State::default());
        },
        _ => {},
    }
}

/// Answers a message: the main page answers while it is shown, the inventory
/// page answers none.
pub fn update(state: &mut State, message: Message)
    ensures
        old(state).page is MainPage && message == Message::MainMessage(MainMessage::GotoInventory)
            ==> final(state).page.is_fresh_inventory(),
        !(old(state).page is MainPage && message == Message::MainMessage(
            MainMessage::GotoInventory,
        )) ==> *final(state) == *old(state),
{
    let on_main: bool = match &state.page {
        Page::MainPage => true,
        Page::InventoryPage(_) => false,
    };
    if on_main {
        main_update(state, message);
    }
}

} // verus!
