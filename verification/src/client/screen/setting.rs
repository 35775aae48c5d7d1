//! The setting screen: the address of the server, edited and then put in force.

use vstd::prelude::*;

use crate::client;
use crate::client::Command;
use crate::client::CommandView;
use crate::client::Screen;
use crate::client::ScreenView;
use crate::client::Subscription;

verus! {

/// The setting: the address of the server.
#[derive(Debug, PartialEq)]
pub struct State {
    pub url: String,
}

/// What a [`State`] holds, as mathematical values.
pub struct StateView {
    pub url: Seq<char>,
}

impl View for State {
    type V = StateView;

    open spec fn view(&self) -> StateView {
        StateView { url: self.url@ }
    }
}

impl Clone for State {
    fn clone(&self) -> (copy: Self)
        ensures
            copy@ == self@,
    {
        State { url: self.url.clone() }
    }
}

/// What the setting screen can be told.
#[derive(Debug, Clone)]
pub enum Message {
    /// The address in the box is now this text.
    OnIPChange(String),
    /// Put the address in the box in force, and store it.
    Connect,
    /// Leave the screen.
    Back,
}

impl StateView {
    /// The setting that holds when none is stored: an empty address.
    pub open spec fn blank() -> StateView {
        StateView { url: Seq::empty() }
    }

    /// The setting to start from, given the address that was found stored, if any.
    pub open spec fn restored(stored: Option<Seq<char>>) -> StateView {
        match stored {
            Some(url) => StateView { url },
            None => StateView::blank(),
        }
    }
}

impl State {
    /// The setting to start from: the stored address where one could be read, an
    /// empty address where the store is missing or unreadable.
    pub fn restore(stored: Option<String>) -> (setting: State)
        ensures
            setting@ == StateView::restored(
                match stored {
                    Some(url) => Some(url@),
                    None => None,
                },
            ),
    {
        match stored {
            Some(url) => State { url },
            None => State { url: String::new() },
        }
    }
}

/// A setting that was stored and is read again is the same setting.
pub proof fn stored_setting_comes_back(setting: StateView)
    ensures
        StateView::restored(Some(setting.url)) == setting,
{
}

/// The setting screen can answer `message` in `state`: `Connect` needs the setting
/// screen to be the one that is shown.
pub open spec fn accepts(state: client::StateView, message: client::Message) -> bool {
    message matches client::Message::Setting(Message::Connect) ==> state.screen is Setting
}

/// The state after `message`. A message to another screen changes nothing.
pub open spec fn step(pre: client::StateView, message: client::Message) -> client::StateView {
    match message {
        client::Message::Setting(Message::OnIPChange(ip)) => client::StateView {
            screen: ScreenView::Setting(StateView { url: ip@ }),
            setting: pre.setting,
        },
        client::Message::Setting(Message::Connect) => match pre.screen {
            ScreenView::Setting(edited) => client::StateView { screen: pre.screen, setting: edited },
            _ => pre,
        },
        client::Message::Setting(Message::Back) => client::StateView {
            screen: ScreenView::Home,
            setting: pre.setting,
        },
        _ => pre,
    }
}

/// The commands that `message` leaves: `Connect` has the edited setting stored.
pub open spec fn commands(pre: client::StateView, message: client::Message) -> Seq<CommandView> {
    match message {
        client::Message::Setting(Message::Connect) => match pre.screen {
            ScreenView::Setting(edited) => seq![CommandView::SaveSetting(edited)],
            _ => Seq::empty(),
        },
        _ => Seq::empty(),
    }
}

/// What the setting screen listens for: key releases.
pub fn subscription(state: &State) -> (listening: Subscription)
    ensures
        listening == Subscription::SettingKeyRelease,
{
    Subscription::SettingKeyRelease
}

/// Answers a message on the setting screen.
pub fn update(state: &mut client::State, message: client::Message) -> (tasks: Vec<Command>)
    requires
        accepts(old(state)@, message),
    ensures
        final(state)@ == step(old(state)@, message),
        client::commands_view(tasks@) == commands(old(state)@, message),
{
    let mut tasks: Vec<Command> = Vec::new();
    match message {
        client::Message::Setting(Message::OnIPChange(ip)) => {
            state.screen = Screen::Setting(State { url: ip });
        },
        client::Message::Setting(Message::Connect) => {
            match &state.screen {
                Screen::Setting(edited) => {
                    let saved = edited.clone();
                    state.setting = edited.clone();
                    tasks.push(Command::SaveSetting(saved));
                },
                _ => {},
            }
        },
        client::Message::Setting(Message::Back) => {
            state.screen = Screen::Home;
        },
        _ => {},
    }
    assert(client::commands_view(tasks@) =~= commands(old(state)@, message));
    tasks
}

} // verus!
