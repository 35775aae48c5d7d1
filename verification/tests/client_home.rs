use sunminimart::client::screen::home;
use sunminimart::client::screen::inventory;
use sunminimart::client::screen::setting;
use sunminimart::client::Command;
use sunminimart::client::Message;
use sunminimart::client::Screen;
use sunminimart::client::State;

fn home_state() -> State {
    State::new(setting::State::restore(Some("http://shop:3000".to_string())))
}

#[test]
fn home_goto_inventory() {
    let mut state = home_state();
    let tasks = state.update(Message::Home(home::Message::GotoInventory));
    assert_eq!(
        state.screen,
        Screen::Inventory(Box::new(inventory::State::default()))
    );
    assert_eq!(tasks, vec![Command::FetchItems("http://shop:3000".to_string())]);
}

#[test]
fn goto_setting() {
    let mut state = home_state();
    let stored = setting::State::restore(None);
    let tasks = state.update(Message::Home(home::Message::GotoSetting(stored)));
    assert_eq!(state.screen, Screen::Setting(setting::State::restore(None)));
    assert!(tasks.is_empty());
}

#[test]
fn goto_setting_shows_the_stored_address() {
    let mut state = home_state();
    let stored = setting::State::restore(Some("10.0.0.7:3000".to_string()));
    state.update(Message::Home(home::Message::GotoSetting(stored)));
    assert_eq!(
        state.screen,
        Screen::Setting(setting::State {
            url: "10.0.0.7:3000".to_string()
        })
    );
    assert_eq!(state.setting.url, "http://shop:3000");
}

#[test]
fn home_ignores_messages_to_other_screens() {
    let mut state = home_state();
    assert!(state.accepts(&Message::Inventory(inventory::Message::Refresh)));
    let tasks = state.update(Message::Inventory(inventory::Message::Refresh));
    assert_eq!(state.screen, Screen::Home);
    assert!(tasks.is_empty());
    let tasks = state.update(Message::Setting(setting::Message::Connect));
    assert_eq!(state.screen, Screen::Home);
    assert_eq!(state.setting.url, "http://shop:3000");
    assert!(tasks.is_empty());
}

#[test]
fn client_starts_on_the_home_screen() {
    let state = State::new(setting::State::restore(None));
    assert_eq!(state.screen, Screen::Home);
    assert_eq!(state.setting.url, "");
}
