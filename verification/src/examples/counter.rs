//! A counter whose value can be saved: an application that hosts a
//! [save dialog](crate::save_dialog).
//!
//! The application counts up and down. On request it opens the save dialog
//! with a file name made from the counter, and it is told by the dialog where
//! the user wants the file.

use crate::save_dialog::FileFilter;
use crate::save_dialog::SaveDialogMsg;
use crate::save_dialog::SaveDialogParent;
use crate::save_dialog::SaveDialogSettings;
use crate::examples::text::decimal_text;
use crate::examples::text::decimal_text_is_one_to_one;
use crate::examples::text::push_decimal;
use std::path::PathBuf;
use vstd::prelude::*;
use vstd::string::StringExecFns;

verus! {

/// The state of the application: the counter.
#[derive(Debug)]
pub struct AppModel {
    counter: u8,
}

impl View for AppModel {
    type V = u8;

    closed spec fn view(&self) -> u8 {
        self.counter
    }
}

impl Default for AppModel {
    /// The application starts counting at zero.
    fn default() -> (model: Self)
        ensures
            model@ == 0,
    {
        AppModel { counter: 0 }
    }
}

/// The messages the application understands.
#[derive(Debug, PartialEq, Eq)]
pub enum AppMsg {
    /// Count one up.
    Increment,
    /// Count one down.
    Decrement,
    /// The user wants to save the counter.
    SaveRequest,
    /// The save dialog was left with the given path.
    SaveResponse(PathBuf),
}

/// What the application has to do after a message was handled.
#[derive(Debug, PartialEq, Eq)]
pub enum AppAction {
    /// Send the message to the save dialog.
    AskDialog(SaveDialogMsg),
    /// Tell the user that the file would have been saved at the path.
    ReportSaved(PathBuf),
}

/// The counter after `msg`. Counting wraps around at both ends.
pub open spec fn counter_after(counter: u8, msg: AppMsg) -> u8 {
    match msg {
        AppMsg::Increment => if counter == u8::MAX {
            0
        } else {
            (counter + 1) as u8
        },
        AppMsg::Decrement => if counter == 0 {
            u8::MAX
        } else {
            (counter - 1) as u8
        },
        _ => counter,
    }
}

/// The file name proposed for saving a counter: `Counter_` and the counter
/// in decimal notation.
pub open spec fn file_name(counter: u8) -> Seq<char> {
    "Counter_"@ + decimal_text(counter as nat)
}

/// The text that shows a counter to the user: `Counter: ` and the counter in
/// decimal notation.
pub open spec fn label_text(counter: u8) -> Seq<char> {
    "Counter: "@ + decimal_text(counter as nat)
}

/// Whether `action` is what the application owes after `msg` arrived at the
/// given counter.
pub open spec fn action_for(counter: u8, msg: AppMsg, action: Option<AppAction>) -> bool {
    match msg {
        AppMsg::Increment | AppMsg::Decrement => action is None,
        AppMsg::SaveRequest => {
            &&& action matches Some(AppAction::AskDialog(SaveDialogMsg::SaveAs(name)))
            &&& name@ == file_name(counter)
        },
        AppMsg::SaveResponse(path) => action == Some(AppAction::ReportSaved(path)),
    }
}

impl AppModel {
    /// The value of the counter.
    pub fn counter(&self) -> (counter: u8)
        ensures
            counter == self@,
    {
        self.counter
    }

    /// The text that shows the counter to the user.
    pub fn label(&self) -> (text: String)
        ensures
            text@ == label_text(self@),
    {
        let mut text = String::from_str("Counter: ");
        push_decimal(&mut text, self.counter);
        text
    }

    /// Handles `msg`. Returns what the application has to do next, if
    /// anything.
    pub fn update(&mut self, msg: AppMsg) -> (action: Option<AppAction>)
        ensures
            final(self)@ == counter_after(old(self)@, msg),
            action_for(old(self)@, msg, action),
    {
        match msg {
            AppMsg::Increment => {
                self.counter = self.counter.wrapping_add(1);
                None
            },
            AppMsg::Decrement => {
                self.counter = self.counter.wrapping_sub(1);
                None
            },
            AppMsg::SaveRequest => {
                let mut name = String::from_str("Counter_");
                push_decimal(&mut name, self.counter);
                Some(AppAction::AskDialog(SaveDialogMsg::SaveAs(name)))
            },
            AppMsg::SaveResponse(path) => Some(AppAction::ReportSaved(path)),
        }
    }
}

impl SaveDialogParent for AppModel {
    type Msg = AppMsg;

    /// A modal dialog labelled "Open" and "Cancel" that lets the user create
    /// folders and shows every file.
    fn dialog_config(&self) -> (settings: SaveDialogSettings)
        ensures
            settings.accept_label@ == "Open"@,
            settings.cancel_label@ == "Cancel"@,
            settings.create_folders,
            settings.is_modal,
            settings.filters@ == Seq::<FileFilter>::empty(),
    {
        SaveDialogSettings {
            accept_label: String::from_str("Open"),
            cancel_label: String::from_str("Cancel"),
            create_folders: true,
            is_modal: true,
            filters: Vec::new(),
        }
    }

    /// The dialog answers with [`AppMsg::SaveResponse`].
    fn save_msg(path: PathBuf) -> (msg: AppMsg)
        ensures
            msg == AppMsg::SaveResponse(path),
    {
        AppMsg::SaveResponse(path)
    }
}

/// Counting up and counting down undo each other, also where the counter
/// wraps around.
pub proof fn counting_undoes(counter: u8)
    ensures
        counter_after(counter_after(counter, AppMsg::Increment), AppMsg::Decrement) == counter,
        counter_after(counter_after(counter, AppMsg::Decrement), AppMsg::Increment) == counter,
{
}

/// Counters that differ are proposed under file names that differ.
pub proof fn file_names_differ(a: u8, b: u8)
    requires
        a != b,
    ensures
        file_name(a) != file_name(b),
{
    reveal_with_fuel(decimal_text, 3);
    let prefix = "Counter_"@;
    let x = decimal_text(a as nat);
    let y = decimal_text(b as nat);
    if prefix + x == prefix + y {
        assert((prefix + x).subrange(prefix.len() as int, (prefix + x).len() as int) =~= x);
        assert((prefix + y).subrange(prefix.len() as int, (prefix + y).len() as int) =~= y);
        decimal_text_is_one_to_one(a as nat, b as nat);
    }
}

} // verus!
