//! A dialog that asks the user where to save a file.
//!
//! [`SaveDialogModel`] is the state of the dialog: whether it is shown and
//! which file name it proposes. [`SaveDialogModel::update`] says how a
//! [`SaveDialogMsg`] changes that state and what the parent component is told,
//! [`SaveDialogMsg::from_response`] turns an answer of the file chooser into a
//! message, and [`SaveDialogModel::widget_update`] says what the file chooser
//! has to be told after an update.
//!
//! The model records for each of its observable fields whether the field was
//! changed since the last [`SaveDialogModel::reset`], one bit per field, so
//! that the widgets are only told about what really changed.

use std::path::PathBuf;
use vstd::prelude::*;

verus! {

/// Declares `std::path::PathBuf` as a type of which nothing is known: a path
/// is handed through unchanged from the file chooser to the parent component,
/// and no function here looks into it.
#[verifier::external_type_specification]
#[verifier::external_body]
pub struct ExPathBuf(PathBuf);

/// A rule by which the file chooser narrows the files it shows.
///
/// A file passes the filter when it matches one of the glob `patterns` or has
/// one of the `mime_types`.
#[derive(Debug, PartialEq, Eq)]
pub struct FileFilter {
    /// Name shown to the user, if the filter has one.
    pub name: Option<String>,
    /// Shell-style glob patterns, such as `*.txt`.
    pub patterns: Vec<String>,
    /// MIME types, such as `text/plain`.
    pub mime_types: Vec<String>,
}

/// How the save dialog is to look and behave. Chosen by the parent component
/// when the dialog is created.
#[derive(Debug, PartialEq, Eq)]
pub struct SaveDialogSettings {
    /// Label of the button that dismisses the dialog.
    pub cancel_label: String,
    /// Label of the button that confirms the choice.
    pub accept_label: String,
    /// Whether the user may create folders from within the dialog.
    pub create_folders: bool,
    /// Whether the dialog blocks its parent window while it is open.
    pub is_modal: bool,
    /// The file filters offered to the user, in the order shown.
    pub filters: Vec<FileFilter>,
}

/// The messages a save dialog understands.
#[derive(Debug, PartialEq, Eq)]
pub enum SaveDialogMsg {
    /// Show the dialog.
    Save,
    /// Show the dialog and propose the given file name.
    SaveAs(String),
    /// The user confirmed the given path.
    Accept(PathBuf),
    /// The user confirmed, but what was chosen has no path.
    InvalidInput,
    /// The user dismissed the dialog.
    Cancel,
}

/// How the user left the file chooser, as far as the save dialog tells the
/// answers apart.
#[derive(Debug, Clone, Copy, PartialEq, Eq)]
pub enum DialogResponse {
    /// The choice was confirmed.
    Accept,
    /// The dialog was dismissed.
    Cancel,
    /// Any other answer.
    Other,
}

/// What a parent component provides to host a save dialog.
pub trait SaveDialogParent {
    /// The messages the parent component understands.
    type Msg;

    /// The settings for the dialog.
    fn dialog_config(&self) -> SaveDialogSettings;

    /// The message by which the parent learns where to save.
    fn save_msg(path: PathBuf) -> Self::Msg;
}

/// What the widgets of a parent component provide to host a save dialog.
pub trait SaveDialogParentWidgets {
    /// The toolkit's handle of a window.
    type Window;

    /// The window above which the dialog is shown, if there is one.
    fn parent_window(&self) -> Option<Self::Window>;
}

/// Bit of the change mask that stands for the suggestion.
pub const SUGGESTION_MASK: u8 = 1;

/// Bit of the change mask that stands for the visibility flag.
pub const IS_ACTIVE_MASK: u8 = 2;

/// Bit of the change mask that stands for the file name.
pub const NAME_MASK: u8 = 4;

/// Whether the change mask `tracker` records a change for a field of `mask`.
pub open spec fn mask_hit(tracker: u8, mask: u8) -> bool {
    tracker & mask != 0
}

/// The characters of an optional string.
pub open spec fn opt_chars(s: Option<String>) -> Option<Seq<char>> {
    match s {
        Some(s) => Some(s@),
        None => None,
    }
}

/// The state of a save dialog.
#[derive(Debug)]
pub struct SaveDialogModel {
    settings: SaveDialogSettings,
    suggestion: Option<String>,
    is_active: bool,
    name: String,
    tracker: u8,
}

/// What a [`SaveDialogModel`] holds, as a mathematical value.
pub ghost struct SaveDialogState {
    /// The settings the dialog was created with.
    pub settings: SaveDialogSettings,
    /// A file name kept for later proposal, if any.
    pub suggestion: Option<Seq<char>>,
    /// Whether the dialog is shown.
    pub is_active: bool,
    /// The file name the dialog proposes.
    pub name: Seq<char>,
    /// The change mask: one bit for each field changed since the last reset.
    pub tracker: u8,
}

impl View for SaveDialogModel {
    type V = SaveDialogState;

    closed spec fn view(&self) -> SaveDialogState {
        SaveDialogState {
            settings: self.settings,
            suggestion: opt_chars(self.suggestion),
            is_active: self.is_active,
            name: self.name@,
            tracker: self.tracker,
        }
    }
}

/// The state of a dialog that was just created with `settings`: hidden, with
/// no name and no suggestion, and nothing marked as changed.
pub open spec fn initial_state(settings: SaveDialogSettings) -> SaveDialogState {
    SaveDialogState {
        settings,
        suggestion: None,
        is_active: false,
        name: Seq::empty(),
        tracker: 0,
    }
}

/// Whether two optional strings hold the same text.
fn same_text(a: &Option<String>, b: &Option<String>) -> (same: bool)
    ensures
        same == (opt_chars(*a) == opt_chars(*b)),
{
    match (a, b) {
        (None, None) => true,
        (Some(x), Some(y)) => *x == *y,
        _ => false,
    }
}

impl SaveDialogModel {
    /// A hidden dialog with the given settings.
    pub fn new(settings: SaveDialogSettings) -> (model: Self)
        ensures
            model@ == initial_state(settings),
    {
        SaveDialogModel {
            settings,
            suggestion: None,
            is_active: false,
            name: String::new(),
            tracker: 0,
        }
    }

    /// The settings the dialog was created with.
    pub fn settings(&self) -> (settings: &SaveDialogSettings)
        ensures
            *settings == self@.settings,
    {
        &self.settings
    }

    /// The change mask with every bit set.
    pub fn track_all() -> (mask: u8)
        ensures
            mask == u8::MAX,
    {
        u8::MAX
    }

    /// Marks every field as changed.
    pub fn mark_all_changed(&mut self)
        ensures
            final(self)@ == (SaveDialogState { tracker: u8::MAX, ..old(self)@ }),
    {
        self.tracker = u8::MAX;
    }

    /// Whether a field of `mask` was changed since the last reset.
    pub fn changed(&self, mask: u8) -> (hit: bool)
        ensures
            hit == mask_hit(self@.tracker, mask),
    {
        self.tracker & mask != 0
    }

    /// Marks every field as unchanged.
    pub fn reset(&mut self)
        ensures
            final(self)@ == (SaveDialogState { tracker: 0, ..old(self)@ }),
    {
        self.tracker = 0;
    }
}

/// The suggestion and its bit of the change mask.
impl SaveDialogModel {
    /// The bit of the change mask that stands for the suggestion.
    pub fn suggestion() -> (mask: u8)
        ensures
            mask == SUGGESTION_MASK,
    {
        assert(1u8 << 0 == 1) by (bit_vector);
        1 << 0
    }

    /// The file name kept for later proposal, if any.
    pub fn get_suggestion(&self) -> (suggestion: &Option<String>)
        ensures
            opt_chars(*suggestion) == self@.suggestion,
    {
        &self.suggestion
    }

    /// Gives the suggestion out for writing and marks it as changed.
    pub fn get_mut_suggestion(&mut self) -> (suggestion: &mut Option<String>)
        ensures
            opt_chars(*suggestion) == old(self)@.suggestion,
            final(self)@ == (SaveDialogState {
                suggestion: opt_chars(*final(suggestion)),
                tracker: old(self)@.tracker | SUGGESTION_MASK,
                ..old(self)@
            }),
    {
        self.tracker |= Self::suggestion();
        &mut self.suggestion
    }

    /// Lets `f` rewrite the suggestion and marks it as changed.
    pub fn update_suggestion<F: FnOnce(&mut Option<String>)>(&mut self, f: F)
        requires
            forall|suggestion: &mut Option<String>|
                opt_chars(*suggestion) == old(self)@.suggestion ==> call_requires(
                    f,
                    (suggestion,),
                ),
        ensures
            final(self)@ == (SaveDialogState {
                suggestion: final(self)@.suggestion,
                tracker: old(self)@.tracker | SUGGESTION_MASK,
                ..old(self)@
            }),
            exists|suggestion: &mut Option<String>|
                opt_chars(*suggestion) == old(self)@.suggestion && opt_chars(*final(suggestion))
                    == final(self)@.suggestion && call_ensures(f, (suggestion,), ()),
    {
        self.tracker |= Self::suggestion();
        f(&mut self.suggestion);
    }

    /// Replaces the suggestion, and marks it as changed if the new one
    /// differs from the old one.
    pub fn set_suggestion(&mut self, value: Option<String>)
        ensures
            final(self)@ == (SaveDialogState {
                suggestion: opt_chars(value),
                tracker: if old(self)@.suggestion != opt_chars(value) {
                    old(self)@.tracker | SUGGESTION_MASK
                } else {
                    old(self)@.tracker
                },
                ..old(self)@
            }),
    {
        if !same_text(&self.suggestion, &value) {
            self.tracker |= Self::suggestion();
        }
        self.suggestion = value;
    }
}

/// The visibility flag and its bit of the change mask.
impl SaveDialogModel {
    /// The bit of the change mask that stands for the visibility flag.
    pub fn is_active() -> (mask: u8)
        ensures
            mask == IS_ACTIVE_MASK,
    {
        assert(1u8 << 1 == 2) by (bit_vector);
        1 << 1
    }

    /// Whether the dialog is shown.
    pub fn get_is_active(&self) -> (is_active: &bool)
        ensures
            *is_active == self@.is_active,
    {
        &self.is_active
    }

    /// Gives the visibility flag out for writing and marks it as changed.
    pub fn get_mut_is_active(&mut self) -> (is_active: &mut bool)
        ensures
            *is_active == old(self)@.is_active,
            final(self)@ == (SaveDialogState {
                is_active: *final(is_active),
                tracker: old(self)@.tracker | IS_ACTIVE_MASK,
                ..old(self)@
            }),
    {
        self.tracker |= Self::is_active();
        &mut self.is_active
    }

    /// Lets `f` rewrite the visibility flag and marks it as changed.
    pub fn update_is_active<F: FnOnce(&mut bool)>(&mut self, f: F)
        requires
            forall|is_active: &mut bool|
                *is_active == old(self)@.is_active ==> call_requires(f, (is_active,)),
        ensures
            final(self)@ == (SaveDialogState {
                is_active: final(self)@.is_active,
                tracker: old(self)@.tracker | IS_ACTIVE_MASK,
                ..old(self)@
            }),
            exists|is_active: &mut bool|
                *is_active == old(self)@.is_active && *final(is_active) == final(self)@.is_active
                    && call_ensures(f, (is_active,), ()),
    {
        self.tracker |= Self::is_active();
        f(&mut self.is_active);
    }

    /// Shows or hides the dialog, and marks the flag as changed if it
    /// differs from before.
    pub fn set_is_active(&mut self, value: bool)
        ensures
            final(self)@ == (SaveDialogState {
                is_active: value,
                tracker: if old(self)@.is_active != value {
                    old(self)@.tracker | IS_ACTIVE_MASK
                } else {
                    old(self)@.tracker
                },
                ..old(self)@
            }),
    {
        if self.is_active != value {
            self.tracker |= Self::is_active();
        }
        self.is_active = value;
    }
}

/// The file name and its bit of the change mask.
impl SaveDialogModel {
    /// The bit of the change mask that stands for the file name.
    pub fn name() -> (mask: u8)
        ensures
            mask == NAME_MASK,
    {
        assert(1u8 << 2 == 4) by (bit_vector);
        1 << 2
    }

    /// The file name the dialog proposes.
    pub fn get_name(&self) -> (name: &String)
        ensures
            name@ == self@.name,
    {
        &self.name
    }

    /// Gives the file name out for writing and marks it as changed.
    pub fn get_mut_name(&mut self) -> (name: &mut String)
        ensures
            name@ == old(self)@.name,
            final(self)@ == (SaveDialogState {
                name: final(name)@,
                tracker: old(self)@.tracker | NAME_MASK,
                ..old(self)@
            }),
    {
        self.tracker |= Self::name();
        &mut self.name
    }

    /// Lets `f` rewrite the file name and marks it as changed.
    pub fn update_name<F: FnOnce(&mut String)>(&mut self, f: F)
        requires
            forall|name: &mut String| name@ == old(self)@.name ==> call_requires(f, (name,)),
        ensures
            final(self)@ == (SaveDialogState {
                name: final(self)@.name,
                tracker: old(self)@.tracker | NAME_MASK,
                ..old(self)@
            }),
            exists|name: &mut String|
                name@ == old(self)@.name && final(name)@ == final(self)@.name && call_ensures(
                    f,
                    (name,),
                    (),
                ),
    {
        self.tracker |= Self::name();
        f(&mut self.name);
    }

    /// Replaces the file name, and marks it as changed if the new name
    /// differs from the old one.
    pub fn set_name(&mut self, value: String)
        ensures
            final(self)@ == (SaveDialogState {
                name: value@,
                tracker: if old(self)@.name != value@ {
                    old(self)@.tracker | NAME_MASK
                } else {
                    old(self)@.tracker
                },
                ..old(self)@
            }),
    {
        if self.name != value {
            self.tracker |= Self::name();
        }
        self.name = value;
    }
}

/// Whether the dialog is shown after `msg`, if it was shown or hidden
/// (`shown`) before.
pub open spec fn shown_after(shown: bool, msg: SaveDialogMsg) -> bool {
    match msg {
        SaveDialogMsg::Save | SaveDialogMsg::SaveAs(_) => true,
        SaveDialogMsg::Accept(_) | SaveDialogMsg::Cancel => false,
        SaveDialogMsg::InvalidInput => shown,
    }
}

/// The file name the dialog proposes after `msg`, if it proposed `name`
/// before.
pub open spec fn name_after(name: Seq<char>, msg: SaveDialogMsg) -> Seq<char> {
    match msg {
        SaveDialogMsg::SaveAs(proposal) => proposal@,
        _ => name,
    }
}

/// The state that `msg` leaves behind when it arrives in state `pre`.
///
/// The change mask is started afresh: afterwards it says whether this
/// message, and none before it, gave the dialog another name. Showing and
/// hiding the dialog is not recorded in it.
pub open spec fn next_state(pre: SaveDialogState, msg: SaveDialogMsg) -> SaveDialogState {
    SaveDialogState {
        is_active: shown_after(pre.is_active, msg),
        name: name_after(pre.name, msg),
        tracker: if name_after(pre.name, msg) != pre.name {
            NAME_MASK
        } else {
            0
        },
        ..pre
    }
}

/// The path that `msg` asks to pass on to the parent component, if any.
pub open spec fn saved_path(msg: SaveDialogMsg) -> Option<PathBuf> {
    match msg {
        SaveDialogMsg::Accept(path) => Some(path),
        _ => None,
    }
}

impl SaveDialogModel {
    /// The model of a dialog hosted by `parent_model`: hidden, and with the
    /// settings that the parent asks for, that is, with what
    /// [`SaveDialogParent::dialog_config`] returned for `parent_model`.
    pub fn init_model<P: SaveDialogParent>(parent_model: &P) -> (model: Self)
        ensures
            call_ensures(P::dialog_config, (parent_model,), model@.settings),
            model@ == initial_state(model@.settings),
    {
        Self::new(parent_model.dialog_config())
    }

    /// Handles `msg`. Returns the message for the parent component, if the
    /// parent is to be told anything.
    ///
    /// The parent hears from the dialog exactly when a path was accepted, and
    /// then receives what its own [`SaveDialogParent::save_msg`] makes of
    /// that path.
    pub fn update<P: SaveDialogParent>(&mut self, msg: SaveDialogMsg) -> (reply: Option<P::Msg>)
        ensures
            final(self)@ == next_state(old(self)@, msg),
            match saved_path(msg) {
                Some(path) => reply matches Some(parent_msg) && call_ensures(
                    P::save_msg,
                    (path,),
                    parent_msg,
                ),
                None => reply is None,
            },
    {
        self.reset();
        assert(0u8 | 4u8 == 4u8) by (bit_vector);

        match msg {
            SaveDialogMsg::Save => {
                self.is_active = true;
                None
            },
            SaveDialogMsg::SaveAs(name) => {
                self.is_active = true;
                self.set_name(name);
                None
            },
            SaveDialogMsg::Cancel => {
                self.is_active = false;
                None
            },
            SaveDialogMsg::Accept(path) => {
                self.is_active = false;
                Some(P::save_msg(path))
            },
            SaveDialogMsg::InvalidInput => None,
        }
    }
}

/// The message that an answer of the file chooser stands for, if any.
/// `path` is the path of the chosen file, as far as there is one.
pub open spec fn response_msg(response: DialogResponse, path: Option<PathBuf>) -> Option<
    SaveDialogMsg,
> {
    match response {
        DialogResponse::Accept => match path {
            Some(path) => Some(SaveDialogMsg::Accept(path)),
            None => Some(SaveDialogMsg::InvalidInput),
        },
        DialogResponse::Cancel => Some(SaveDialogMsg::Cancel),
        DialogResponse::Other => None,
    }
}

impl SaveDialogMsg {
    /// The message to send to the dialog when the file chooser answered with
    /// `response`, or `None` when the answer is of no interest.
    ///
    /// `path` is the path of the file chosen in the file chooser: `None` if
    /// no file is chosen or the chosen file has no path.
    pub fn from_response(response: DialogResponse, path: Option<PathBuf>) -> (msg: Option<
        SaveDialogMsg,
    >)
        ensures
            msg == response_msg(response, path),
    {
        match response {
            DialogResponse::Accept => {
                if let Some(path) = path {
                    return Some(SaveDialogMsg::Accept(path));
                }
                Some(SaveDialogMsg::InvalidInput)
            },
            DialogResponse::Cancel => Some(SaveDialogMsg::Cancel),
            DialogResponse::Other => None,
        }
    }
}

/// What the file chooser has to be told after the model was updated.
#[derive(Debug, PartialEq, Eq)]
pub struct WidgetUpdate<'a> {
    /// Whether the file chooser is to be visible.
    pub visible: bool,
    /// The file name to put into the file chooser, if it is to get a new one.
    pub current_name: Option<&'a str>,
}

impl SaveDialogModel {
    /// What the file chooser has to be told to show this model.
    ///
    /// Visibility is passed on every time, the file name only when it was
    /// changed since the last reset.
    pub fn widget_update(&self) -> (update: WidgetUpdate<'_>)
        ensures
            update.visible == self@.is_active,
            update.current_name is Some <==> mask_hit(self@.tracker, NAME_MASK),
            update.current_name matches Some(name) ==> name@ == self@.name,
    {
        WidgetUpdate {
            visible: self.is_active,
            current_name: if self.changed(Self::name()) {
                Some(self.name.as_str())
            } else {
                None
            },
        }
    }
}

/// After a reset no field counts as changed, whatever is asked for.
pub proof fn reset_reports_nothing(mask: u8)
    ensures
        !mask_hit(0, mask),
{
    assert(0u8 & mask == 0) by (bit_vector);
}

/// After every field was marked, each mask that names a field at all is hit.
pub proof fn mark_all_reports_everything(mask: u8)
    ensures
        mask_hit(u8::MAX, mask) <==> mask != 0,
{
    assert(0xffu8 & mask == mask) by (bit_vector);
}

/// Marking a field is seen when that field is asked for, and changes the
/// answer for neither of the other two fields.
pub proof fn mark_reports_one_field(tracker: u8)
    ensures
        mask_hit(tracker | SUGGESTION_MASK, SUGGESTION_MASK),
        mask_hit(tracker | SUGGESTION_MASK, IS_ACTIVE_MASK) == mask_hit(tracker, IS_ACTIVE_MASK),
        mask_hit(tracker | SUGGESTION_MASK, NAME_MASK) == mask_hit(tracker, NAME_MASK),
        mask_hit(tracker | IS_ACTIVE_MASK, IS_ACTIVE_MASK),
        mask_hit(tracker | IS_ACTIVE_MASK, SUGGESTION_MASK) == mask_hit(tracker, SUGGESTION_MASK),
        mask_hit(tracker | IS_ACTIVE_MASK, NAME_MASK) == mask_hit(tracker, NAME_MASK),
        mask_hit(tracker | NAME_MASK, NAME_MASK),
        mask_hit(tracker | NAME_MASK, SUGGESTION_MASK) == mask_hit(tracker, SUGGESTION_MASK),
        mask_hit(tracker | NAME_MASK, IS_ACTIVE_MASK) == mask_hit(tracker, IS_ACTIVE_MASK),
{
    assert((tracker | 1) & 1 != 0) by (bit_vector);
    assert((tracker | 1) & 2 == tracker & 2) by (bit_vector);
    assert((tracker | 1) & 4 == tracker & 4) by (bit_vector);
    assert((tracker | 2) & 2 != 0) by (bit_vector);
    assert((tracker | 2) & 1 == tracker & 1) by (bit_vector);
    assert((tracker | 2) & 4 == tracker & 4) by (bit_vector);
    assert((tracker | 4) & 4 != 0) by (bit_vector);
    assert((tracker | 4) & 1 == tracker & 1) by (bit_vector);
    assert((tracker | 4) & 2 == tracker & 2) by (bit_vector);
}

/// A mask of several fields is hit exactly when one of its parts is.
pub proof fn mask_hit_of_union(tracker: u8, a: u8, b: u8)
    ensures
        mask_hit(tracker, a | b) <==> mask_hit(tracker, a) || mask_hit(tracker, b),
{
    assert((tracker & (a | b) != 0) <==> (tracker & a != 0 || tracker & b != 0)) by (bit_vector);
}

/// After a message was handled, the file name counts as changed exactly when
/// that message gave the dialog another name, and no other field counts as
/// changed.
pub proof fn update_reports_new_name_only(pre: SaveDialogState, msg: SaveDialogMsg)
    ensures
        mask_hit(next_state(pre, msg).tracker, NAME_MASK) <==> next_state(pre, msg).name
            != pre.name,
        !mask_hit(next_state(pre, msg).tracker, SUGGESTION_MASK),
        !mask_hit(next_state(pre, msg).tracker, IS_ACTIVE_MASK),
{
    assert(4u8 & 4u8 != 0) by (bit_vector);
    assert(4u8 & 1u8 == 0) by (bit_vector);
    assert(4u8 & 2u8 == 0) by (bit_vector);
    reset_reports_nothing(NAME_MASK);
    reset_reports_nothing(SUGGESTION_MASK);
    reset_reports_nothing(IS_ACTIVE_MASK);
}

/// No message touches the settings or the suggestion.
pub proof fn update_keeps_settings(pre: SaveDialogState, msg: SaveDialogMsg)
    ensures
        next_state(pre, msg).settings == pre.settings,
        next_state(pre, msg).suggestion == pre.suggestion,
{
}

/// A message that has the parent told where to save also hides the dialog.
pub proof fn saving_hides_dialog(pre: SaveDialogState, msg: SaveDialogMsg)
    requires
        saved_path(msg) is Some,
    ensures
        !next_state(pre, msg).is_active,
{
}

/// Handling a message a second time right after the first leaves the dialog
/// as it is, with nothing left to report.
pub proof fn update_twice(pre: SaveDialogState, msg: SaveDialogMsg)
    ensures
        next_state(next_state(pre, msg), msg) == (SaveDialogState {
            tracker: 0,
            ..next_state(pre, msg)
        }),
{
}

/// What an answer of the file chooser does once its message was handled.
///
/// A confirmed choice with a path hides the dialog and has that path passed
/// on to the parent. A confirmed choice without a path leaves the dialog
/// shown or hidden as it was, and a dismissal hides it; neither tells the
/// parent anything. Any other answer yields no message at all.
pub proof fn response_effect(pre: SaveDialogState, response: DialogResponse, path: Option<PathBuf>)
    ensures
        match response_msg(response, path) {
            Some(msg) => match response {
                DialogResponse::Accept => {
                    &&& saved_path(msg) == path
                    &&& next_state(pre, msg).is_active == (path is None && pre.is_active)
                },
                DialogResponse::Cancel => {
                    &&& saved_path(msg) is None
                    &&& !next_state(pre, msg).is_active
                },
                DialogResponse::Other => false,
            },
            None => response == DialogResponse::Other,
        },
{
}

} // verus!
