use sunminimart::client::custom::DeletableList;
use sunminimart::main_update;
use sunminimart::screen;
use sunminimart::update;
use sunminimart::MainMessage;
use sunminimart::Message;
use sunminimart::Page;
use sunminimart::State;

#[test]
fn lib_goto_inventory() {
    let mut state = State::default();
    main_update(&mut state, Message::MainMessage(MainMessage::GotoInventory));
    assert_eq!(
        state.page,
        Page::InventoryPage(screen::inventory::State::default())
    );
}

#[test]
fn screen_home_goto_inventory() {
    let mut state = screen::State::default();
    screen::home::update(
        &mut state,
        screen::Message::Home(screen::home::Message::GotoInventory),
    );
    assert_eq!(
        state.screen,
        screen::Screen::Inventory(screen::inventory::State::default())
    );
}

#[test]
fn exit_and_foreign_messages_change_nothing() {
    let mut state = State::default();
    main_update(&mut state, Message::MainMessage(MainMessage::Exit));
    assert_eq!(state.page, Page::MainPage);
    main_update(&mut state, Message::InventoryMessage);
    assert_eq!(state.page, Page::MainPage);

    let mut state = screen::State::default();
    screen::home::update(
        &mut state,
        screen::Message::Home(screen::home::Message::Exit),
    );
    assert_eq!(state.screen, screen::Screen::Home);
}

#[test]
fn inventory_page_answers_no_message() {
    let mut state = State::default();
    update(&mut state, Message::MainMessage(MainMessage::GotoInventory));
    assert!(matches!(state.page, Page::InventoryPage(_)));
    update(&mut state, Message::MainMessage(MainMessage::GotoInventory));
    update(&mut state, Message::MainMessage(MainMessage::Exit));
    update(&mut state, Message::InventoryMessage);
    assert_eq!(
        state.page,
        Page::InventoryPage(screen::inventory::State::default())
    );
}

#[test]
fn deletable_list_keeps_its_rows_in_order() {
    let list = DeletableList::new(vec!["a".to_string(), "b".to_string()]);
    assert_eq!(list.len(), 2);
    assert_eq!(list.get(0), "a");
    assert_eq!(list.get(1), "b");
    let empty: DeletableList<u8> = DeletableList::new(Vec::new());
    assert_eq!(empty.len(), 0);
}
