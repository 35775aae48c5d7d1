//! The home screen: the doors to the other screens.

use vstd::prelude::*;

use crate::client;
use crate::client::screen::inventory;
use crate::client::screen::setting;
use crate::client::Command;
use crate::client::CommandView;
use crate::client::Screen;
use crate::client::ScreenView;

verus! {

/// What the home screen can be told.
#[derive(Debug, Clone)]
pub enum Message {
    /// Open the inventory screen.
    GotoInventory,
    /// Open the setting screen on the setting that was found stored.
    GotoSetting(setting::State),
}

/// The state after `message`: the inventory screen as it is entered, or the
/// setting screen on the stored setting. A message to another screen changes
/// nothing.
pub open spec fn step(pre: client::StateView, message: client::Message) -> client::StateView {
    match message {
        client::Message::Home(Message::GotoInventory) => client::StateView {
            screen: ScreenView::Inventory(inventory::StateView::blank()),
            setting: pre.setting,
        },
        client::Message::Home(Message::GotoSetting(stored)) => client::StateView {
            screen: ScreenView::Setting(stored@),
            setting: pre.setting,
        },
        _ => pre,
    }
}

/// The commands that `message` leaves: entering the inventory has the items
/// fetched from the address in force.
pub open spec fn commands(pre: client::StateView, message: client::Message) -> Seq<CommandView> {
    match message {
        client::Message::Home(Message::GotoInventory) => seq![
            CommandView::FetchItems(pre.setting.url),
        ],
        _ => Seq::empty(),
    }
}

/// Answers a message on the home screen.
pub fn update(state: &mut client::State, message: client::Message) -> (tasks: Vec<Command>)
    ensures
        final(state)@ == step(old(state)@, message),
        client::commands_view(tasks@) == commands(old(state)@, message),
{
    let mut tasks: Vec<Command> = Vec::new();
    match message {
        client::Message::Home(Message::GotoInventory) => {
            state.screen = Screen::Inventory(Box::new(inventory::State::default()));
            tasks.push(Command::FetchItems(state.setting.url.clone()));
        },
        client::Message::Home(Message::GotoSetting(stored)) => {
            state.screen = Screen::Setting(stored);
        },
        _ => {},
    }
    assert(client::commands_view(tasks@) =~= commands(old(state)@, message));
    tasks
}

} // verus!
