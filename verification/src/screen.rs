//! A shell of two screens: home, and the inventory.

use vstd::prelude::*;

pub mod home;
pub mod inventory;

verus! {

/// The screen that is shown.
#[derive(Debug, PartialEq)]
pub enum Screen {
    Home,
    Inventory(inventory::State),
}

/// The shell: the screen that it shows.
#[derive(Debug, PartialEq)]
pub struct State {
    pub screen: Screen,
}

/// A message, addressed to one screen.
#[derive(Debug, Clone, Copy, PartialEq, Eq, Structural)]
pub enum Message {
    Home(home::Message),
}

impl Default for State {
    fn default() -> (state: Self)
        ensures
            state.screen is Home,
    {
        State { screen: Screen::Home }
    }
}

impl Screen {
    /// The screen is the inventory as it is entered: without items.
    pub open spec fn is_fresh_inventory(self) -> bool {
        self matches Screen::Inventory(inventory) && inventory.items@.len() == 0
    }
}

} // verus!
