//! The clerk's desktop client as a state machine: one screen at a time, each
//! message answered by a new state and the commands for the shell to carry out.

use vstd::prelude::*;

pub mod custom;
pub mod screen;

use crate::client::screen::home;
use crate::client::screen::inventory;
use crate::client::screen::setting;

verus! {

/// The keys that the screens listen for; every other key is `Other`.
#[derive(Debug, Clone, Copy, PartialEq, Eq, Structural)]
pub enum Key {
    Escape,
    ArrowDown,
    ArrowUp,
    Other,
}

/// The screen that is shown, with its own state.
#[derive(Debug, PartialEq)]
pub enum Screen {
    Home,
    Inventory(Box<inventory::State>),
    Setting(setting::State),
}

/// The whole client: the screen that is shown, and the setting in force.
#[derive(Debug, PartialEq)]
pub struct State {
    pub screen: Screen,
    pub setting: setting::State,
}

/// A message, addressed to one screen.
#[derive(Debug, Clone)]
pub enum Message {
    Home(home::Message),
    Inventory(inventory::Message),
    Setting(setting::Message),
}

/// Work that a message leaves for the shell around the library.
#[derive(Debug, PartialEq)]
pub enum Command {
    /// Ask whether the search box has the focus, and report it with
    /// `inventory::Message::IsSearchFocus`.
    CheckSearchFocus,
    /// Give the search box the focus.
    FocusSearch,
    /// Fetch the items from the server at this address, and report them with
    /// `inventory::Message::ItemsFetched`.
    FetchItems(String),
    /// Store this setting.
    SaveSetting(setting::State),
}

/// What a [`Screen`] holds, as mathematical values.
pub enum ScreenView {
    Home,
    Inventory(inventory::StateView),
    Setting(setting::StateView),
}

/// What a [`State`] holds, as mathematical values.
pub struct StateView {
    pub screen: ScreenView,
    pub setting: setting::StateView,
}

/// What a [`Command`] holds, as mathematical values.
pub enum CommandView {
    CheckSearchFocus,
    FocusSearch,
    FetchItems(Seq<char>),
    SaveSetting(setting::StateView),
}

impl View for Screen {
    type V = ScreenView;

    open spec fn view(&self) -> ScreenView {
        match *self {
            Screen::Home => ScreenView::Home,
            Screen::Inventory(state) => ScreenView::Inventory(state@),
            Screen::Setting(state) => ScreenView::Setting(state@),
        }
    }
}

impl View for State {
    type V = StateView;

    open spec fn view(&self) -> StateView {
        StateView { screen: self.screen@, setting: self.setting@ }
    }
}

impl View for Command {
    type V = CommandView;

    open spec fn view(&self) -> CommandView {
        match *self {
            Command::CheckSearchFocus => CommandView::CheckSearchFocus,
            Command::FocusSearch => CommandView::FocusSearch,
            Command::FetchItems(url) => CommandView::FetchItems(url@),
            Command::SaveSetting(setting) => CommandView::SaveSetting(setting@),
        }
    }
}

/// The views of a list of commands, in order.
pub open spec fn commands_view(commands: Seq<Command>) -> Seq<CommandView> {
    commands.map_values(|c: Command| c@)
}

/// What is listened for while a screen is shown.
#[derive(Debug, Clone, Copy, PartialEq, Eq, Structural)]
pub enum Subscription {
    /// No key is listened for.
    Nothing,
    /// Key presses on the inventory screen. The arrow keys count only while the
    /// search box has the focus.
    InventoryKeyPress { arrows: bool },
    /// Key releases on the setting screen.
    SettingKeyRelease,
}

impl Subscription {
    /// The message that a key press brings under this subscription, if any.
    pub open spec fn key_pressed(self, key: Key) -> Option<Message> {
        match (self, key) {
            (Subscription::InventoryKeyPress { arrows }, Key::Escape) => Some(
                Message::Inventory(inventory::Message::Back),
            ),
            (Subscription::InventoryKeyPress { arrows: true }, Key::ArrowDown) => Some(
                Message::Inventory(inventory::Message::ChangePosition(Key::ArrowDown)),
            ),
            (Subscription::InventoryKeyPress { arrows: true }, Key::ArrowUp) => Some(
                Message::Inventory(inventory::Message::ChangePosition(Key::ArrowUp)),
            ),
            _ => None,
        }
    }

    /// The message that a key release brings under this subscription, if any.
    pub open spec fn key_released(self, key: Key) -> Option<Message> {
        match (self, key) {
            (Subscription::SettingKeyRelease, Key::Escape) => Some(
                Message::Setting(setting::Message::Back),
            ),
            _ => None,
        }
    }

    /// The message that a key press brings under this subscription, if any.
    pub fn on_key_press(&self, key: Key) -> (message: Option<Message>)
        ensures
            message == self.key_pressed(key),
    {
        match *self {
            Subscription::InventoryKeyPress { arrows } => match key {
                Key::Escape => Some(Message::Inventory(inventory::Message::Back)),
                Key::ArrowDown => if arrows {
                    Some(Message::Inventory(inventory::Message::ChangePosition(Key::ArrowDown)))
                } else {
                    None
                },
                Key::ArrowUp => if arrows {
                    Some(Message::Inventory(inventory::Message::ChangePosition(Key::ArrowUp)))
                } else {
                    None
                },
                Key::Other => None,
            },
            _ => None,
        }
    }

    /// The message that a key release brings under this subscription, if any.
    pub fn on_key_release(&self, key: Key) -> (message: Option<Message>)
        ensures
            message == self.key_released(key),
    {
        match (*self, key) {
            (Subscription::SettingKeyRelease, Key::Escape) => Some(
                Message::Setting(setting::Message::Back),
            ),
            _ => None,
        }
    }
}

/// What is listened for in a state: nothing on the home screen, key presses on the
/// inventory screen, key releases on the setting screen.
pub open spec fn subscribed(state: StateView) -> Subscription {
    match state.screen {
        ScreenView::Home => Subscription::Nothing,
        ScreenView::Setting(screen) => Subscription::SettingKeyRelease,
        ScreenView::Inventory(screen) => Subscription::InventoryKeyPress {
            arrows: screen.search.focus,
        },
    }
}

/// What is listened for in a state.
pub fn subscription(state: &State) -> (listening: Subscription)
    ensures
        listening == subscribed(state@),
{
    match &state.screen {
        Screen::Home => Subscription::Nothing,
        Screen::Setting(screen) => setting::subscription(screen),
        Screen::Inventory(screen) => inventory::subscription(screen),
    }
}

/// The state can answer the message: the screen that is shown decides.
pub open spec fn accepts(state: StateView, message: Message) -> bool {
    match state.screen {
        ScreenView::Home => true,
        ScreenView::Inventory(screen) => inventory::accepts(state, message),
        ScreenView::Setting(screen) => setting::accepts(state, message),
    }
}

/// The state after `message`: the screen that is shown answers it.
pub open spec fn step(pre: StateView, message: Message) -> StateView {
    match pre.screen {
        ScreenView::Home => home::step(pre, message),
        ScreenView::Inventory(screen) => inventory::step(pre, message),
        ScreenView::Setting(screen) => setting::step(pre, message),
    }
}

/// The commands that `message` leaves in state `pre`.
pub open spec fn commands(pre: StateView, message: Message) -> Seq<CommandView> {
    match pre.screen {
        ScreenView::Home => home::commands(pre, message),
        ScreenView::Inventory(screen) => inventory::commands(pre, message),
        ScreenView::Setting(screen) => setting::commands(pre, message),
    }
}

/// An address that is typed on the setting screen and then connected to is the
/// address in force, and the one that is handed over to be stored.
pub proof fn typed_address_comes_in_force(pre: StateView, ip: String)
    requires
        pre.screen is Setting,
    ensures
        ({
            let typed = step(pre, Message::Setting(setting::Message::OnIPChange(ip)));
            let connect = Message::Setting(setting::Message::Connect);
            &&& accepts(typed, connect)
            &&& step(typed, connect).setting.url == ip@
            &&& commands(typed, connect) == seq![
                CommandView::SaveSetting(setting::StateView { url: ip@ }),
            ]
        }),
{
}

/// A key never brings a message that the state cannot answer: whatever is
/// listened for in a state, the message of a key press or release is accepted there.
pub proof fn keys_bring_accepted_messages(pre: StateView, key: Key)
    ensures
        subscribed(pre).key_pressed(key) matches Some(message) ==> accepts(pre, message),
        subscribed(pre).key_released(key) matches Some(message) ==> accepts(pre, message),
{
}

/// The mark of the inventory stands on a row of its list, or the list is empty,
/// wherever the inventory is the screen that is shown.
pub open spec fn well_marked(state: StateView) -> bool {
    state.screen matches ScreenView::Inventory(screen) ==> screen.mark_on_row()
}

/// The mark stays on the list through every message that the state accepts, but
/// for the arrival of new items; and it stays through that too while it stands on
/// the first row.
pub proof fn accepted_messages_keep_the_mark(pre: StateView, message: Message)
    requires
        well_marked(pre),
        accepts(pre, message),
        message matches Message::Inventory(inventory::Message::ItemsFetched(_)) ==> (
        pre.screen matches ScreenView::Inventory(screen) ==> screen.position == 0),
    ensures
        well_marked(step(pre, message)),
{
    if let ScreenView::Inventory(screen) = pre.screen {
        if let Message::Inventory(inner) = message {
            if !(inner is ItemsFetched) && !(inner is Back) {
                inventory::mark_stays_on_row(screen, inner);
            }
        }
    }
}

/// No message but `Connect` changes the setting in force.
pub proof fn only_connect_changes_the_setting(pre: StateView, message: Message)
    requires
        !(message matches Message::Setting(setting::Message::Connect)),
    ensures
        step(pre, message).setting == pre.setting,
{
}

impl State {
    /// The client as it starts: the home screen, with the given setting in force.
    pub fn new(setting: setting::State) -> (state: State)
        ensures
            state@ == (StateView { screen: ScreenView::Home, setting: setting@ }),
    {
        State { screen: Screen::Home, setting }
    }

    /// Whether the state can answer the message.
    pub fn accepts(&self, message: &Message) -> (ok: bool)
        ensures
            ok == accepts(self@, *message),
    {
        match &self.screen {
            Screen::Home => true,
            Screen::Setting(screen) => true,
            Screen::Inventory(screen) => match message {
                Message::Inventory(inner) => screen.handles(inner),
                _ => false,
            },
        }
    }

    /// Answers a message: the new state, and the commands for the shell.
    pub fn update(&mut self, message: Message) -> (tasks: Vec<Command>)
        requires
            accepts(old(self)@, message),
        ensures
            final(self)@ == step(old(self)@, message),
            commands_view(tasks@) == commands(old(self)@, message),
    {
        match &self.screen {
            Screen::Home => home::update(self, message),
            Screen::Inventory(_) => inventory::update(self, message),
            Screen::Setting(_) => setting::update(self, message),
        }
    }
}

} // verus!
