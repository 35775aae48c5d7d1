//! The home screen of the two-screen shell.

use vstd::prelude::*;

use crate::screen;
use crate::screen::inventory;
use crate::screen::Screen;

verus! {

/// What the home screen can be told.
#[derive(Debug, Clone, Copy, PartialEq, Eq, Structural)]
pub enum Message {
    /// Open the inventory.
    GotoInventory,
    /// Leave; nothing follows from it.
    Exit,
}

/// Answers a message on the home screen: `GotoInventory` opens the inventory as
/// it is entered, `Exit` leaves the shell as it is.
pub fn update(state: &mut screen::State, message: screen::Message)
    ensures
        message == screen::Message::Home(Message::GotoInventory) ==> final(state).screen.is_fresh_inventory(),
        message == screen::Message::Home(Message::Exit) ==> *final(state) == *old(state),
{
    match message {
        screen::Message::Home(Message::GotoInventory) => {
            state.screen = Screen::Inventory(inventory::State::default());
        },
        screen::Message::Home(Message::Exit) => {},
    }
}

} // verus!
