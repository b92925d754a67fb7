//! A list of buttons that grows and shrinks: an application that keeps one
//! counter for each button it shows.
//!
//! A new button takes the number that the application counts up with each
//! button it adds, and each click on a button counts that button's own
//! number one down.

use crate::examples::text::decimal;
use crate::examples::text::decimal_text;
use vstd::prelude::*;

verus! {

/// What one button shows.
#[derive(Debug, PartialEq, Eq)]
pub struct Data {
    /// The number on the button.
    pub counter: u8,
}

impl Data {
    /// The text on the button: its number in decimal notation.
    pub fn label(&self) -> (text: String)
        ensures
            text@ == decimal_text(self.counter as nat),
    {
        decimal(self.counter)
    }
}

/// The state of the application.
#[derive(Debug)]
pub struct AppModel {
    data: Vec<Data>,
    counter: u8,
}

/// What an [`AppModel`] holds, as a mathematical value.
pub ghost struct AppState {
    /// The numbers on the buttons, from the first button to the last.
    pub data: Seq<u8>,
    /// The number that the next new button gets.
    pub counter: u8,
}

/// The numbers on a row of buttons.
spec fn numbers(data: Seq<Data>) -> Seq<u8> {
    data.map_values(|item: Data| item.counter)
}

impl View for AppModel {
    type V = AppState;

    closed spec fn view(&self) -> AppState {
        AppState { data: numbers(self.data@), counter: self.counter }
    }
}

/// The messages the application understands.
#[derive(Debug, Clone, Copy, PartialEq, Eq)]
pub enum AppMsg {
    /// Add a button at the end.
    Add,
    /// Remove the last button.
    Remove,
    /// The button at the given position was clicked.
    Clicked(usize),
}

/// What happened to the list of buttons, for the widgets to follow.
#[derive(Debug, Clone, Copy, PartialEq, Eq)]
pub enum ListChange {
    /// A button with the given number was added at the end.
    Pushed(u8),
    /// The last button was removed.
    Popped,
    /// The button at the given position now shows the given number.
    Changed(usize, u8),
}

/// Whether `msg` can be handled in state `pre`: there is a number left for a
/// new button, and a click names a button that exists.
pub open spec fn accepts(pre: AppState, msg: AppMsg) -> bool {
    match msg {
        AppMsg::Add => pre.counter < u8::MAX,
        AppMsg::Remove => true,
        AppMsg::Clicked(index) => index < pre.data.len(),
    }
}

/// The number on a button after a click on it. Counting down wraps around.
pub open spec fn clicked(counter: u8) -> u8 {
    if counter == 0 {
        u8::MAX
    } else {
        (counter - 1) as u8
    }
}

/// The state that `msg` leaves behind when it arrives in state `pre`.
pub open spec fn next_state(pre: AppState, msg: AppMsg) -> AppState
    recommends
        accepts(pre, msg),
{
    match msg {
        AppMsg::Add => AppState {
            data: pre.data.push(pre.counter),
            counter: (pre.counter + 1) as u8,
        },
        AppMsg::Remove => AppState {
            data: if pre.data.len() > 0 {
                pre.data.drop_last()
            } else {
                pre.data
            },
            ..pre
        },
        AppMsg::Clicked(index) => AppState {
            data: pre.data.update(index as int, clicked(pre.data[index as int])),
            ..pre
        },
    }
}

/// What `msg` does to the list of buttons when it arrives in state `pre`.
pub open spec fn list_change(pre: AppState, msg: AppMsg) -> Option<ListChange>
    recommends
        accepts(pre, msg),
{
    match msg {
        AppMsg::Add => Some(ListChange::Pushed(pre.counter)),
        AppMsg::Remove => if pre.data.len() > 0 {
            Some(ListChange::Popped)
        } else {
            None
        },
        AppMsg::Clicked(index) => Some(
            ListChange::Changed(index, clicked(pre.data[index as int])),
        ),
    }
}

impl AppModel {
    /// An application without buttons that numbers its buttons from zero.
    pub fn new() -> (model: Self)
        ensures
            model@ == (AppState { data: Seq::empty(), counter: 0 }),
    {
        let model = AppModel { data: Vec::new(), counter: 0 };
        assert(model@.data =~= Seq::empty());
        model
    }

    /// The number of buttons.
    pub fn len(&self) -> (len: usize)
        ensures
            len == self@.data.len(),
    {
        self.data.len()
    }

    /// The number that the next new button gets.
    pub fn counter(&self) -> (counter: u8)
        ensures
            counter == self@.counter,
    {
        self.counter
    }

    /// The button at position `index`, if there is one.
    pub fn get(&self, index: usize) -> (item: Option<&Data>)
        ensures
            match item {
                Some(data) => index < self@.data.len() && data.counter == self@.data[index as int],
                None => index >= self@.data.len(),
            },
    {
        if index < self.data.len() {
            Some(&self.data[index])
        } else {
            None
        }
    }

    /// Whether `msg` can be handled now.
    pub fn can_handle(&self, msg: AppMsg) -> (ok: bool)
        ensures
            ok == accepts(self@, msg),
    {
        match msg {
            AppMsg::Add => self.counter < u8::MAX,
            AppMsg::Remove => true,
            AppMsg::Clicked(index) => index < self.data.len(),
        }
    }

    /// Handles `msg`. Returns what happened to the list of buttons, if
    /// anything.
    pub fn update(&mut self, msg: AppMsg) -> (change: Option<ListChange>)
        requires
            accepts(old(self)@, msg),
        ensures
            final(self)@ == next_state(old(self)@, msg),
            change == list_change(old(self)@, msg),
    {
        match msg {
            AppMsg::Add => {
                let counter: u8 = self.counter;
                self.data.push(Data { counter });
                self.counter += 1;
                assert(self@.data =~= old(self)@.data.push(counter));
                Some(ListChange::Pushed(counter))
            },
            AppMsg::Remove => {
                match self.data.pop() {
                    Some(_) => {
                        assert(self@.data =~= old(self)@.data.drop_last());
                        Some(ListChange::Popped)
                    },
                    None => None,
                }
            },
            AppMsg::Clicked(index) => {
                let counter: u8 = self.data[index].counter.wrapping_sub(1);
                self.data[index].counter = counter;
                assert(self@.data =~= old(self)@.data.update(index as int, counter));
                Some(ListChange::Changed(index, counter))
            },
        }
    }
}

/// The row of numbers that results when `change` is carried out on `data`.
pub open spec fn applied(data: Seq<u8>, change: Option<ListChange>) -> Seq<u8> {
    match change {
        Some(ListChange::Pushed(counter)) => data.push(counter),
        Some(ListChange::Popped) => data.drop_last(),
        Some(ListChange::Changed(index, counter)) => data.update(index as int, counter),
        None => data,
    }
}

/// The reported change tells all that happened to the buttons: who carries
/// it out on a copy of the old row holds the new row.
pub proof fn change_tells_all(pre: AppState, msg: AppMsg)
    requires
        accepts(pre, msg),
    ensures
        next_state(pre, msg).data == applied(pre.data, list_change(pre, msg)),
{
}

/// Removing a button right after adding one gives the old row back, while
/// the number for the next new button has moved on.
pub proof fn add_then_remove(pre: AppState)
    requires
        accepts(pre, AppMsg::Add),
    ensures
        next_state(next_state(pre, AppMsg::Add), AppMsg::Remove).data == pre.data,
        next_state(next_state(pre, AppMsg::Add), AppMsg::Remove).counter == pre.counter + 1,
{
    assert(pre.data.push(pre.counter).drop_last() =~= pre.data);
}

/// No message touches a button other than the last one or the one clicked.
pub proof fn other_buttons_stay(pre: AppState, msg: AppMsg, index: int)
    requires
        accepts(pre, msg),
        0 <= index < pre.data.len(),
        index < next_state(pre, msg).data.len(),
        msg != AppMsg::Clicked(index as usize),
    ensures
        next_state(pre, msg).data[index] == pre.data[index],
{
}

} // verus!
