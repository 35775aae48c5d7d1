//! The inventory screen: the list of items, the search that narrows it, the row
//! that is marked, and the item that is being looked at or edited.

use rust_decimal::Decimal;
use vstd::prelude::*;

use crate::client;
use crate::client::Command;
use crate::client::CommandView;
use crate::client::Key;
use crate::client::Screen;
use crate::client::ScreenView;
use crate::client::Subscription;
use crate::number::parse_i32_text;
use crate::number::text_to_i32;
use crate::shared::clone_items;
use crate::shared::items_view;
use crate::shared::Item;
use crate::shared::ItemView;
use crate::text::contains;
use crate::text::contains_empty;
use crate::text::text_contains;

verus! {

/// What the clerk is doing on the screen.
#[derive(Debug, Clone, Copy, PartialEq, Eq, Structural)]
pub enum Mode {
    Search,
    Edit,
}

/// The search box.
#[derive(Debug, PartialEq)]
pub struct Search {
    pub value: String,
    pub focus: bool,
}

/// The inventory screen.
#[derive(Debug, PartialEq)]
pub struct State {
    /// Every item that was fetched.
    pub all_items: Vec<Item>,
    /// The items that the search lets through, in the order of `all_items`.
    pub filtered_items: Vec<Item>,
    /// The item that is shown in the form.
    pub current_item: Item,
    /// The marked row of `filtered_items`.
    pub position: usize,
    pub search: Search,
    pub mode: Mode,
}

/// What the inventory screen can be told.
#[derive(Debug, Clone)]
pub enum Message {
    /// Leave the screen.
    Back,
    /// The search box has, or has not, the focus.
    IsSearchFocus(bool),
    /// The text in the search box is now this.
    OnSearchChange(String),
    /// Take the marked row into the form.
    OnSearchSubmit,
    /// Show every item again and clear the form and the search.
    Refresh,
    /// Fetch the items from the server.
    FetchItems,
    /// The items have come from the server.
    ItemsFetched(Vec<Item>),
    /// An arrow key asks to move the mark.
    ChangePosition(Key),
    /// The mark was moved; nothing follows from it.
    PositionChanged(Key, bool),
    /// Start editing.
    EnterEditMode,
    /// The name in the form is now this text.
    OnNameChange(String),
    /// The cost that was typed, where the text was a number.
    OnCostChange(Option<Decimal>),
    /// The price that was typed, where the text was a number.
    OnPriceChange(Option<Decimal>),
    /// The quantity that was typed, as text.
    OnQuantityChange(String),
}

/// What a [`Search`] holds, as mathematical values.
pub struct SearchView {
    pub value: Seq<char>,
    pub focus: bool,
}

/// What a [`State`] holds, as mathematical values.
pub struct StateView {
    pub all_items: Seq<ItemView>,
    pub filtered_items: Seq<ItemView>,
    pub current_item: ItemView,
    pub position: nat,
    pub search: SearchView,
    pub mode: Mode,
}

impl View for Search {
    type V = SearchView;

    open spec fn view(&self) -> SearchView {
        SearchView { value: self.value@, focus: self.focus }
    }
}

impl View for State {
    type V = StateView;

    open spec fn view(&self) -> StateView {
        StateView {
            all_items: items_view(self.all_items@),
            filtered_items: items_view(self.filtered_items@),
            current_item: self.current_item@,
            position: self.position as nat,
            search: self.search@,
            mode: self.mode,
        }
    }
}

impl StateView {
    /// The screen as it is entered: no items, a blank form, an empty search
    /// without the focus, the mark on the first row, search mode.
    pub open spec fn blank() -> StateView {
        StateView {
            all_items: Seq::empty(),
            filtered_items: Seq::empty(),
            current_item: ItemView::blank(),
            position: 0,
            search: SearchView { value: Seq::empty(), focus: false },
            mode: Mode::Search,
        }
    }

    /// The mark stands on a row of the list, or the list is empty.
    pub open spec fn mark_on_row(self) -> bool {
        self.filtered_items.len() == 0 || self.position < self.filtered_items.len()
    }
}

impl Default for Mode {
    fn default() -> (mode: Self)
        ensures
            mode == Mode::Search,
    {
        Mode::Search
    }
}

impl Default for Search {
    fn default() -> (search: Self)
        ensures
            search@ == (SearchView { value: Seq::empty(), focus: false }),
    {
        Search { value: String::new(), focus: false }
    }
}

impl Default for State {
    fn default() -> (state: Self)
        ensures
            state@ == StateView::blank(),
    {
        let state = State {
            all_items: Vec::new(),
            filtered_items: Vec::new(),
            current_item: Item::default(),
            position: 0,
            search: Search::default(),
            mode: Mode::Search,
        };
        assert(items_view(state.all_items@) =~= Seq::empty());
        assert(items_view(state.filtered_items@) =~= Seq::empty());
        state
    }
}

/// The search lets the item through: its barcode or its name contains the text.
pub open spec fn matches(item: ItemView, search: Seq<char>) -> bool {
    text_contains(item.barcode, search) || text_contains(item.name, search)
}

/// The items that the search lets through, in their order.
pub open spec fn filtered(items: Seq<ItemView>, search: Seq<char>) -> Seq<ItemView> {
    items.filter(|item: ItemView| matches(item, search))
}

/// Whether the search lets the item through.
pub fn item_matches(item: &Item, search: &str) -> (found: bool)
    ensures
        found == matches(item@, search@),
{
    contains(item.barcode.as_str(), search) || contains(item.name.as_str(), search)
}

/// Copies of the items whose barcode or name contains the search text, in their order.
pub fn filter(items: &Vec<Item>, search: &str) -> (found: Vec<Item>)
    ensures
        items_view(found@) == filtered(items_view(items@), search@),
{
    let ghost pred = |item: ItemView| matches(item, search@);
    let ghost all = items_view(items@);
    let mut found: Vec<Item> = Vec::new();
    let mut i: usize = 0;
    proof {
        reveal(Seq::filter);
        assert(all.take(0).filter(pred) =~= Seq::empty());
    }
    while i < items.len()
        invariant
            i <= items.len(),
            all == items_view(items@),
            pred == (|item: ItemView| matches(item, search@)),
            items_view(found@) =~= all.take(i as int).filter(pred),
        decreases items.len() - i,
    {
        let ghost before = items_view(found@);
        proof {
            reveal(Seq::filter);
            assert(all.take(i + 1).drop_last() =~= all.take(i as int));
            assert(all.take(i + 1).last() == items@[i as int]@);
        }
        if item_matches(&items[i], search) {
            found.push(items[i].clone());
            assert(items_view(found@) =~= before.push(items@[i as int]@));
        }
        i += 1;
    }
    assert(all.take(items.len() as int) =~= all);
    found
}

/// The screen can answer the message without reaching past its list: taking the
/// marked row into the form needs the mark on a row of the list, or an empty list.
pub open spec fn handles(pre: StateView, message: Message) -> bool {
    match message {
        Message::OnSearchSubmit => pre.mark_on_row(),
        _ => true,
    }
}

/// The item after a quantity was typed: the item with that quantity where the
/// text is a number, the item unchanged where it is not.
pub open spec fn with_quantity(item: ItemView, text: Seq<char>) -> ItemView {
    match text_to_i32(text) {
        Ok(quantity) => ItemView { quantity, ..item },
        Err(_) => item,
    }
}

/// The screen after the message.
pub open spec fn apply(pre: StateView, message: Message) -> StateView {
    match message {
        Message::OnSearchChange(text) => StateView {
            search: SearchView { value: text@, focus: pre.search.focus },
            position: 0,
            filtered_items: filtered(pre.all_items, text@),
            ..pre
        },
        Message::OnSearchSubmit => StateView {
            current_item: if pre.filtered_items.len() == 0 {
                ItemView::blank()
            } else {
                pre.filtered_items[pre.position as int]
            },
            ..pre
        },
        Message::OnNameChange(name) => StateView {
            current_item: ItemView { name: name@, ..pre.current_item },
            ..pre
        },
        Message::OnCostChange(Some(cost)) => StateView {
            current_item: ItemView { cost, ..pre.current_item },
            ..pre
        },
        Message::OnPriceChange(Some(price)) => StateView {
            current_item: ItemView { price, ..pre.current_item },
            ..pre
        },
        Message::OnQuantityChange(text) => StateView {
            current_item: with_quantity(pre.current_item, text@),
            ..pre
        },
        Message::Refresh => StateView {
            filtered_items: pre.all_items,
            current_item: ItemView::blank(),
            search: SearchView { value: Seq::empty(), focus: pre.search.focus },
            position: 0,
            ..pre
        },
        Message::ItemsFetched(items) => StateView {
            all_items: items_view(items@),
            filtered_items: items_view(items@),
            ..pre
        },
        Message::ChangePosition(Key::ArrowDown) => if pre.position + 1 < pre.filtered_items.len() {
            StateView { position: pre.position + 1, ..pre }
        } else {
            pre
        },
        Message::ChangePosition(Key::ArrowUp) => if pre.position > 0 {
            StateView { position: (pre.position - 1) as nat, ..pre }
        } else {
            pre
        },
        Message::IsSearchFocus(focus) => StateView {
            search: SearchView { value: pre.search.value, focus },
            ..pre
        },
        Message::EnterEditMode => StateView { mode: Mode::Edit, ..pre },
        _ => pre,
    }
}

impl State {
    /// Whether the screen can handle the message.
    pub fn handles(&self, message: &Message) -> (ok: bool)
        ensures
            ok == handles(self@, *message),
    {
        match message {
            Message::OnSearchSubmit => self.filtered_items.len() == 0 || self.position
                < self.filtered_items.len(),
            _ => true,
        }
    }

    /// Whether the mark stands on the row with this number.
    pub fn is_marked(&self, row: usize) -> (marked: bool)
        ensures
            marked == (row == self@.position),
    {
        row == self.position
    }

    /// Answers a message that concerns the screen's own state.
    pub fn handle(&mut self, message: Message)
        requires
            handles(old(self)@, message),
        ensures
            final(self)@ == apply(old(self)@, message),
    {
        match message {
            Message::OnSearchChange(text) => {
                self.filtered_items = filter(&self.all_items, text.as_str());
                self.search.value = text;
                self.position = 0;
            },
            Message::OnSearchSubmit => {
                if self.filtered_items.len() == 0 {
                    self.current_item = Item::default();
                } else {
                    self.current_item = self.filtered_items[self.position].clone();
                }
            },
            Message::OnNameChange(name) => {
                self.current_item.name = name;
            },
            Message::OnCostChange(Some(cost)) => {
                self.current_item.cost = cost;
            },
            Message::OnPriceChange(Some(price)) => {
                self.current_item.price = price;
            },
            Message::OnQuantityChange(text) => {
                match parse_i32_text(text.as_str()) {
                    Ok(quantity) => {
                        self.current_item.quantity = quantity;
                    },
                    Err(_) => {},
                }
            },
            Message::Refresh => {
                self.filtered_items = clone_items(&self.all_items);
                self.current_item = Item::default();
                self.search.value = String::new();
                self.position = 0;
            },
            Message::ItemsFetched(items) => {
                self.all_items = clone_items(&items);
                self.filtered_items = items;
            },
            Message::ChangePosition(Key::ArrowDown) => {
                let rows: usize = self.filtered_items.len();
                if rows > 0 && self.position < rows - 1 {
                    self.position += 1;
                }
            },
            Message::ChangePosition(Key::ArrowUp) => {
                if self.position > 0 {
                    self.position -= 1;
                }
            },
            Message::IsSearchFocus(focus) => {
                self.search.focus = focus;
            },
            Message::EnterEditMode => {
                self.mode = Mode::Edit;
            },
            _ => {},
        }
    }
}

/// A search shows no more than there is: every row that it shows is one of the
/// items and is let through by the search, and every item that the search lets
/// through is shown.
pub proof fn search_shows_what_matches(items: Seq<ItemView>, search: Seq<char>)
    ensures
        filtered(items, search).len() <= items.len(),
        forall|i: int|
            0 <= i < filtered(items, search).len() ==> matches(
                #[trigger] filtered(items, search)[i],
                search,
            ) && items.contains(filtered(items, search)[i]),
        forall|i: int|
            0 <= i < items.len() && matches(items[i], search) ==> filtered(items, search).contains(
                #[trigger] items[i],
            ),
{
    let pred = |item: ItemView| matches(item, search);
    let shown = items.filter(pred);
    items.lemma_filter_len(pred);
    assert forall|i: int| 0 <= i < shown.len() implies matches(#[trigger] shown[i], search)
        && items.contains(shown[i]) by {
        items.lemma_filter_pred(pred, i);
        assert(shown.contains(shown[i]));
        items.lemma_filter_contains_rev(pred, shown[i]);
    }
    assert forall|i: int| 0 <= i < items.len() && matches(items[i], search) implies shown.contains(
        #[trigger] items[i],
    ) by {
        items.lemma_filter_contains(pred, i);
    }
}

/// The empty search shows every item.
pub proof fn empty_search_shows_all(items: Seq<ItemView>)
    ensures
        filtered(items, Seq::empty()) == items,
    decreases items.len(),
{
    reveal(Seq::filter);
    let pred = |item: ItemView| matches(item, Seq::<char>::empty());
    if items.len() > 0 {
        empty_search_shows_all(items.drop_last());
        contains_empty(items.last().barcode);
        assert(pred(items.last()));
        assert(items.drop_last().push(items.last()) =~= items);
    }
}

/// The mark never leaves the list: where it stands on a row, or the list is
/// empty, it still does after every message that the screen can handle, but for
/// the arrival of new items, which leaves the mark where it was.
pub proof fn mark_stays_on_row(pre: StateView, message: Message)
    requires
        pre.mark_on_row(),
        handles(pre, message),
        !(message is ItemsFetched),
    ensures
        apply(pre, message).mark_on_row(),
{
}

/// New items leave the mark on a row exactly when that row is among them, or
/// there are none.
pub proof fn mark_after_fetch(pre: StateView, items: Vec<Item>)
    ensures
        apply(pre, Message::ItemsFetched(items)).mark_on_row() <==> (items@.len() == 0
            || pre.position < items@.len()),
{
}

/// After a refresh the list shows every item, the mark is on the first row, the
/// form is blank and the search is empty; a second refresh changes nothing more.
pub proof fn refresh_resets(pre: StateView)
    ensures
        apply(pre, Message::Refresh).filtered_items == pre.all_items,
        apply(pre, Message::Refresh).all_items == pre.all_items,
        apply(pre, Message::Refresh).position == 0,
        apply(pre, Message::Refresh).current_item == ItemView::blank(),
        apply(pre, Message::Refresh).search.value == Seq::<char>::empty(),
        apply(pre, Message::Refresh).mark_on_row(),
        apply(apply(pre, Message::Refresh), Message::Refresh) == apply(pre, Message::Refresh),
{
}

/// What the inventory screen listens for: key presses, the arrow keys among them
/// only while the search box has the focus.
pub fn subscription(state: &State) -> (listening: Subscription)
    ensures
        listening == (Subscription::InventoryKeyPress { arrows: state@.search.focus }),
{
    Subscription::InventoryKeyPress { arrows: state.search.focus }
}

/// The message reaches into the screen's own state: all but `Back`, `FetchItems`
/// and `PositionChanged` do.
pub open spec fn reaches_screen(message: Message) -> bool {
    !(message is Back || message is FetchItems || message is PositionChanged)
}

/// The inventory screen can answer `message` in `state`: the message is one of its
/// own, and where it reaches into the screen, the inventory screen is the one that
/// is shown and can handle it.
pub open spec fn accepts(state: client::StateView, message: client::Message) -> bool {
    &&& message matches client::Message::Inventory(inner)
    &&& reaches_screen(inner) ==> {
        &&& state.screen matches ScreenView::Inventory(screen)
        &&& handles(screen, inner)
    }
}

/// The state after `message`.
pub open spec fn step(pre: client::StateView, message: client::Message) -> client::StateView {
    match message {
        client::Message::Inventory(Message::Back) => client::StateView {
            screen: ScreenView::Home,
            setting: pre.setting,
        },
        client::Message::Inventory(inner) => match pre.screen {
            ScreenView::Inventory(screen) => client::StateView {
                screen: ScreenView::Inventory(apply(screen, inner)),
                setting: pre.setting,
            },
            _ => pre,
        },
        _ => pre,
    }
}

/// The commands that `message` leaves: always a look at the focus of the search
/// box; after `Refresh` the focus goes to the search box; `FetchItems` has the
/// items fetched from the address in force.
pub open spec fn commands(pre: client::StateView, message: client::Message) -> Seq<CommandView> {
    match message {
        client::Message::Inventory(Message::Refresh) => seq![
            CommandView::CheckSearchFocus,
            CommandView::FocusSearch,
        ],
        client::Message::Inventory(Message::FetchItems) => seq![
            CommandView::CheckSearchFocus,
            CommandView::FetchItems(pre.setting.url),
        ],
        client::Message::Inventory(_) => seq![CommandView::CheckSearchFocus],
        _ => Seq::empty(),
    }
}

/// Answers a message on the inventory screen.
pub fn update(state: &mut client::State, message: client::Message) -> (tasks: Vec<Command>)
    requires
        accepts(old(state)@, message),
    ensures
        final(state)@ == step(old(state)@, message),
        client::commands_view(tasks@) == commands(old(state)@, message),
{
    let mut tasks: Vec<Command> = Vec::new();
    tasks.push(Command::CheckSearchFocus);
    match message {
        client::Message::Inventory(Message::Back) => {
            state.screen = Screen::Home;
        },
        client::Message::Inventory(Message::FetchItems) => {
            tasks.push(Command::FetchItems(state.setting.url.clone()));
        },
        client::Message::Inventory(Message::PositionChanged(_, _)) => {},
        client::Message::Inventory(inner) => {
            let refresh = matches!(inner, Message::Refresh);
            match &mut state.screen {
                Screen::Inventory(screen) => {
                    screen.handle(inner);
                },
                _ => {},
            }
            if refresh {
                tasks.push(Command::FocusSearch);
            }
        },
        _ => {},
    }
    assert(client::commands_view(tasks@) =~= commands(old(state)@, message));
    tasks
}

} // verus!
