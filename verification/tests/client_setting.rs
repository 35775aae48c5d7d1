use sunminimart::client::screen::home;
use sunminimart::client::screen::setting;
use sunminimart::client::subscription;
use sunminimart::client::Command;
use sunminimart::client::Key;
use sunminimart::client::Message;
use sunminimart::client::Screen;
use sunminimart::client::State;
use sunminimart::client::Subscription;

fn setting_state() -> State {
    State {
        screen: Screen::Setting(setting::State::restore(None)),
        setting: setting::State::restore(None),
    }
}

#[test]
fn setting_back() {
    let mut state = setting_state();
    let _ = state.update(Message::Setting(setting::Message::Back));
    assert_eq!(state.screen, Screen::Home);
}

#[test]
fn change_ip() {
    let ip = "192.168.1.45:3000".to_string();

    let mut state = setting_state();

    let _ = state.update(Message::Setting(setting::Message::OnIPChange(ip.clone())));
    if let Screen::Setting(state) = &state.screen {
        assert_eq!(state.url, ip);
    } else {
        panic!("test: change_ip");
    }

    let tasks = state.update(Message::Setting(setting::Message::Connect));
    assert_eq!(state.setting.url, ip);
    assert_eq!(
        tasks,
        vec![Command::SaveSetting(setting::State { url: ip.clone() })]
    );
}

#[test]
fn typing_an_address_does_not_put_it_in_force() {
    let mut state = setting_state();
    let tasks = state.update(Message::Setting(setting::Message::OnIPChange(
        "10.1.1.1".to_string(),
    )));
    assert_eq!(state.setting.url, "");
    assert!(tasks.is_empty());
}

#[test]
fn setting_ignores_messages_to_other_screens() {
    let mut state = setting_state();
    assert!(state.accepts(&Message::Home(home::Message::GotoInventory)));
    let tasks = state.update(Message::Home(home::Message::GotoInventory));
    assert_eq!(state.screen, Screen::Setting(setting::State::restore(None)));
    assert!(tasks.is_empty());
}

#[test]
fn restore_falls_back_to_an_empty_address() {
    assert_eq!(setting::State::restore(None).url, "");
    assert_eq!(
        setting::State::restore(Some("a:1".to_string())).url,
        "a:1"
    );
}

#[test]
fn setting_screen_listens_for_escape_on_release() {
    let state = setting_state();
    let listening = subscription(&state);
    assert_eq!(listening, Subscription::SettingKeyRelease);
    assert!(matches!(
        listening.on_key_release(Key::Escape),
        Some(Message::Setting(setting::Message::Back))
    ));
    assert!(listening.on_key_release(Key::ArrowDown).is_none());
    assert!(listening.on_key_release(Key::Other).is_none());
    assert!(listening.on_key_press(Key::Escape).is_none());
}

#[test]
fn home_screen_listens_for_nothing() {
    let state = State::new(setting::State::restore(None));
    let listening = subscription(&state);
    assert_eq!(listening, Subscription::Nothing);
    assert!(listening.on_key_press(Key::Escape).is_none());
    assert!(listening.on_key_release(Key::Escape).is_none());
}
