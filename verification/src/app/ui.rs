//! What lies over the video: the controls, the lock slider, the menu and the dialogs.

use crate::settings;
use crate::time::Duration;
use vstd::prelude::*;

verus! {

/// How long the controls stay while nothing is touched: two seconds.
pub const CONTROLS_HIDE_AFTER_NANOS: u128 = 2_000_000_000;

/// How long the lock slider takes to slide back: half a second.
pub const LOCK_SLIDE_BACK_NANOS: u128 = 500_000_000;

/// The far end of the lock slider, in millionths of its way.
pub const LOCK_SLIDER_END: u32 = 1_000_000;

/// The controls and the lock slider. How far the slider is out is counted in millionths.
#[derive(Clone, Copy, Debug, PartialEq, Eq, Structural)]
pub struct Controls {
    pub menu_open: bool,
    pub visible: bool,
    pub locked: bool,
    pub idle: Duration,
    pub drag_fraction: u32,
    pub dragging: bool,
    pub drag_origin: u32,
    pub return_from: Option<u32>,
    pub return_elapsed: Duration,
}

/// How far out the slider is after `elapsed` of its way back from `from`.
pub open spec fn returning_fraction(from: u32, elapsed: Duration) -> u32 {
    ((from * (LOCK_SLIDE_BACK_NANOS - elapsed.nanos)) / LOCK_SLIDE_BACK_NANOS as int) as u32
}

impl Controls {
    /// The slider lies between its ends.
    pub open spec fn wf(self) -> bool {
        &&& self.drag_fraction <= LOCK_SLIDER_END
        &&& self.drag_origin <= LOCK_SLIDER_END
        &&& self.return_from matches Some(from) ==> from <= LOCK_SLIDER_END
    }

    pub open spec fn initial() -> Self {
        Controls {
            menu_open: false,
            visible: true,
            locked: false,
            idle: Duration { nanos: 0 },
            drag_fraction: 0,
            dragging: false,
            drag_origin: 0,
            return_from: None,
            return_elapsed: Duration { nanos: 0 },
        }
    }

    /// The controls once something was touched.
    pub open spec fn noted(self) -> Self {
        Controls { visible: true, idle: Duration { nanos: 0 }, ..self }
    }

    pub open spec fn visibility_toggled(self) -> Self {
        if self.visible {
            Controls { visible: false, menu_open: false, idle: Duration { nanos: 0 }, ..self }
        } else {
            self.noted()
        }
    }

    /// The slider a while later, on its way back if it is let go.
    pub open spec fn slid_back(self, elapsed: Duration) -> Self {
        match self.return_from {
            None => self,
            Some(from) => {
                let total = self.return_elapsed.plus(elapsed);
                if total.nanos >= LOCK_SLIDE_BACK_NANOS {
                    Controls {
                        drag_fraction: 0,
                        return_from: None,
                        return_elapsed: Duration { nanos: 0 },
                        ..self
                    }
                } else {
                    Controls {
                        drag_fraction: returning_fraction(from, total),
                        return_elapsed: total,
                        ..self
                    }
                }
            },
        }
    }

    pub open spec fn drag_begun(self) -> Self {
        Controls {
            dragging: true,
            drag_origin: self.drag_fraction,
            return_from: None,
            return_elapsed: Duration { nanos: 0 },
            ..self
        }.noted()
    }

    pub open spec fn dragged(self, delta: i32) -> Self {
        let out = self.drag_origin + delta;
        Controls {
            drag_fraction: if out < 0 {
                0
            } else if out > LOCK_SLIDER_END {
                LOCK_SLIDER_END
            } else {
                out as u32
            },
            ..self
        }.noted()
    }

    pub open spec fn drag_ended(self) -> Self {
        Controls {
            dragging: false,
            return_from: if self.drag_fraction > 0 { Some(self.drag_fraction) } else { None },
            return_elapsed: Duration { nanos: 0 },
            ..self
        }.noted()
    }

    /// The controls after `elapsed`: they hide only while a video plays and nothing keeps
    /// them.
    pub open spec fn after(
        self,
        elapsed: Duration,
        has_video: bool,
        playing: bool,
        dialog_open: bool,
    ) -> Self {
        let slid = self.slid_back(elapsed);
        if !has_video {
            slid.noted()
        } else if !playing {
            Controls { idle: Duration { nanos: 0 }, ..slid }
        } else if slid.menu_open || dialog_open || slid.dragging {
            slid.noted()
        } else {
            let idle = slid.idle.plus(elapsed);
            Controls {
                idle,
                visible: slid.visible && idle.nanos < CONTROLS_HIDE_AFTER_NANOS,
                ..slid
            }
        }
    }

    pub fn new() -> (controls: Self)
        ensures
            controls == Self::initial(),
            controls.wf(),
    {
        Controls {
            menu_open: false,
            visible: true,
            locked: false,
            idle: Duration::zero(),
            drag_fraction: 0,
            dragging: false,
            drag_origin: 0,
            return_from: None,
            return_elapsed: Duration::zero(),
        }
    }

    pub fn note_interaction(&mut self)
        ensures
            *final(self) == old(self).noted(),
    {
        self.visible = true;
        self.idle = Duration::zero();
    }

    pub fn toggle_visibility(&mut self)
        ensures
            *final(self) == old(self).visibility_toggled(),
    {
        if self.visible {
            self.visible = false;
            self.menu_open = false;
            self.idle = Duration::zero();
        } else {
            self.note_interaction();
        }
    }

    pub fn update_lock_slider_return(&mut self, elapsed: Duration)
        requires
            old(self).wf(),
        ensures
            *final(self) == old(self).slid_back(elapsed),
            final(self).wf(),
    {
        let from: u32 = match self.return_from {
            Some(from) => from,
            None => {
                return;
            },
        };
        let total = self.return_elapsed.saturating_add(elapsed);
        if total.nanos >= LOCK_SLIDE_BACK_NANOS {
            self.drag_fraction = 0;
            self.return_from = None;
            self.return_elapsed = Duration::zero();
            return;
        }
        let left: u128 = LOCK_SLIDE_BACK_NANOS - total.nanos;
        assert(from * left <= from * LOCK_SLIDE_BACK_NANOS) by (nonlinear_arith)
            requires
                left <= LOCK_SLIDE_BACK_NANOS,
        ;
        assert(from * LOCK_SLIDE_BACK_NANOS <= 1_000_000 * LOCK_SLIDE_BACK_NANOS) by (nonlinear_arith)
            requires
                from <= 1_000_000,
        ;
        let product: u128 = from as u128 * left;
        self.return_elapsed = total;
        self.drag_fraction = (product / LOCK_SLIDE_BACK_NANOS) as u32;
    }

    pub fn begin_lock_drag(&mut self)
        requires
            old(self).wf(),
        ensures
            *final(self) == old(self).drag_begun(),
            final(self).wf(),
    {
        self.dragging = true;
        self.drag_origin = self.drag_fraction;
        self.return_from = None;
        self.return_elapsed = Duration::zero();
        self.note_interaction();
    }

    /// Moves the slider by `delta` millionths from where it was taken.
    pub fn set_lock_drag_delta(&mut self, delta: i32)
        requires
            old(self).wf(),
        ensures
            *final(self) == old(self).dragged(delta),
            final(self).wf(),
    {
        let out: i64 = self.drag_origin as i64 + delta as i64;
        self.drag_fraction = if out < 0 {
            0
        } else if out > LOCK_SLIDER_END as i64 {
            LOCK_SLIDER_END
        } else {
            out as u32
        };
        self.note_interaction();
    }

    /// Lets the slider go; whether it was all the way out.
    pub fn end_lock_drag(&mut self) -> (toggles_lock: bool)
        requires
            old(self).wf(),
        ensures
            *final(self) == old(self).drag_ended(),
            toggles_lock == (old(self).drag_fraction >= LOCK_SLIDER_END),
            final(self).wf(),
    {
        let toggles_lock = self.drag_fraction >= LOCK_SLIDER_END;
        self.dragging = false;
        self.return_from = if self.drag_fraction > 0 { Some(self.drag_fraction) } else { None };
        self.return_elapsed = Duration::zero();
        self.note_interaction();
        toggles_lock
    }

    /// Lets `elapsed` pass.
    pub fn update(&mut self, elapsed: Duration, has_video: bool, playing: bool, dialog_open: bool)
        requires
            old(self).wf(),
        ensures
            *final(self) == old(self).after(elapsed, has_video, playing, dialog_open),
            final(self).wf(),
    {
        self.update_lock_slider_return(elapsed);
        if !has_video {
            self.note_interaction();
            return;
        }
        if !playing {
            self.idle = Duration::zero();
            return;
        }
        if self.menu_open || dialog_open || self.dragging {
            self.note_interaction();
            return;
        }
        self.idle = self.idle.saturating_add(elapsed);
        if self.idle.nanos >= CONTROLS_HIDE_AFTER_NANOS {
            self.visible = false;
        }
    }
}

/// The slider never goes out by itself, and is back at its near end in half a second.
pub proof fn slider_slides_back(controls: Controls, elapsed: Duration)
    requires
        controls.wf(),
        controls.return_from matches Some(from) ==> controls.drag_fraction <= from,
    ensures
        controls.return_from matches Some(from) ==> controls.slid_back(elapsed).drag_fraction
            <= from,
        elapsed.nanos >= LOCK_SLIDE_BACK_NANOS && controls.return_from is Some
            ==> controls.slid_back(elapsed).drag_fraction == 0
            && controls.slid_back(elapsed).return_from is None,
        controls.return_from is None ==> controls.slid_back(elapsed) == controls,
{
    match controls.return_from {
        Some(from) => {
            let total = controls.return_elapsed.plus(elapsed);
            if total.nanos < LOCK_SLIDE_BACK_NANOS {
                let left = LOCK_SLIDE_BACK_NANOS - total.nanos;
                assert(0 <= from * left <= from * LOCK_SLIDE_BACK_NANOS) by (nonlinear_arith)
                    requires
                        0 <= left <= LOCK_SLIDE_BACK_NANOS,
                ;
            }
        },
        None => {},
    }
}

/// Controls hide only while a video plays and neither the menu, a dialog nor the slider
/// keeps them.
pub proof fn controls_hide_only_while_playing(
    controls: Controls,
    elapsed: Duration,
    has_video: bool,
    playing: bool,
    dialog_open: bool,
)
    requires
        controls.visible,
        !controls.after(elapsed, has_video, playing, dialog_open).visible,
    ensures
        has_video && playing && !dialog_open && !controls.menu_open && !controls.dragging,
        controls.idle.plus(elapsed).nanos >= CONTROLS_HIDE_AFTER_NANOS,
{
}

/// The text fields that the on-screen keyboard can write to.
#[derive(Clone, Copy, Debug, PartialEq, Eq, Structural)]
pub enum AndroidTextField {
    ChangeVideo,
    SeekTo,
    FavouriteQualities,
    SignInUser,
    SignInDevice,
}

/// What a text field holds, and what of it is selected, counted in characters.
#[derive(Debug, PartialEq, Eq)]
pub struct AndroidTextInputSnapshot {
    pub field: AndroidTextField,
    pub text: String,
    pub selection_start: usize,
    pub selection_end: usize,
    pub clicked: bool,
}

/// A text field as values.
pub struct TextInput {
    pub field: AndroidTextField,
    pub text: Seq<char>,
    pub selection_start: usize,
    pub selection_end: usize,
    pub clicked: bool,
}

impl View for AndroidTextInputSnapshot {
    type V = TextInput;

    open spec fn view(&self) -> TextInput {
        TextInput {
            field: self.field,
            text: self.text@,
            selection_start: self.selection_start,
            selection_end: self.selection_end,
            clicked: self.clicked,
        }
    }
}

impl Clone for AndroidTextInputSnapshot {
    fn clone(&self) -> (snapshot: Self)
        ensures
            snapshot == *self,
    {
        AndroidTextInputSnapshot {
            field: self.field,
            text: self.text.clone(),
            selection_start: self.selection_start,
            selection_end: self.selection_end,
            clicked: self.clicked,
        }
    }
}

/// What the user is asked or told.
#[derive(Debug, PartialEq, Eq)]
pub enum DialogState {
    ChangeVideo { input: String, error: Option<String> },
    SeekTo { input: String, error: Option<String> },
    FavouriteQualities { input: String },
    SignIn { user_id: String, device_id: String },
    ConfirmSignOut,
    TwitchResolving { video_id: String },
    Message { title: String, message: String },
}

/// A dialog as values.
pub enum Dialog {
    ChangeVideo { input: Seq<char>, error: Option<Seq<char>> },
    SeekTo { input: Seq<char>, error: Option<Seq<char>> },
    FavouriteQualities { input: Seq<char> },
    SignIn { user_id: Seq<char>, device_id: Seq<char> },
    ConfirmSignOut,
    TwitchResolving { video_id: Seq<char> },
    Message { title: Seq<char>, message: Seq<char> },
}

impl View for DialogState {
    type V = Dialog;

    open spec fn view(&self) -> Dialog {
        match self {
            DialogState::ChangeVideo { input, error } => Dialog::ChangeVideo {
                input: input@,
                error: settings::optional_view(*error),
            },
            DialogState::SeekTo { input, error } => Dialog::SeekTo {
                input: input@,
                error: settings::optional_view(*error),
            },
            DialogState::FavouriteQualities { input } => Dialog::FavouriteQualities {
                input: input@,
            },
            DialogState::SignIn { user_id, device_id } => Dialog::SignIn {
                user_id: user_id@,
                device_id: device_id@,
            },
            DialogState::ConfirmSignOut => Dialog::ConfirmSignOut,
            DialogState::TwitchResolving { video_id } => Dialog::TwitchResolving {
                video_id: video_id@,
            },
            DialogState::Message { title, message } => Dialog::Message {
                title: title@,
                message: message@,
            },
        }
    }
}

/// A dialog with `text` in a field; none if it has no such field.
pub open spec fn edited(dialog: Dialog, field: AndroidTextField, text: Seq<char>) -> Option<Dialog> {
    match (field, dialog) {
        (AndroidTextField::ChangeVideo, Dialog::ChangeVideo { input, error }) => Some(
            Dialog::ChangeVideo { input: text, error },
        ),
        (AndroidTextField::SeekTo, Dialog::SeekTo { input, error }) => Some(
            Dialog::SeekTo { input: text, error },
        ),
        (AndroidTextField::FavouriteQualities, Dialog::FavouriteQualities { input }) => Some(
            Dialog::FavouriteQualities { input: text },
        ),
        (AndroidTextField::SignInUser, Dialog::SignIn { user_id, device_id }) => Some(
            Dialog::SignIn { user_id: text, device_id },
        ),
        (AndroidTextField::SignInDevice, Dialog::SignIn { user_id, device_id }) => Some(
            Dialog::SignIn { user_id, device_id: text },
        ),
        _ => None,
    }
}

/// What lies over the video.
pub struct UiState {
    pub controls: Controls,
    pub dialog: Option<DialogState>,
    pub focus_first_dialog_input: bool,
    pub debug_info: bool,
    pub android_text_input: Option<AndroidTextInputSnapshot>,
    pub android_text_selection_override: Option<(AndroidTextField, usize, usize)>,
}

/// What lies over the video, as values.
pub struct Overlay {
    pub controls: Controls,
    pub dialog: Option<Dialog>,
    pub focus_first_dialog_input: bool,
    pub debug_info: bool,
    pub android_text_input: Option<TextInput>,
    pub android_text_selection_override: Option<(AndroidTextField, usize, usize)>,
}

pub open spec fn dialog_view(dialog: Option<DialogState>) -> Option<Dialog> {
    match dialog {
        Some(dialog) => Some(dialog@),
        None => None,
    }
}

pub open spec fn text_input_view(input: Option<AndroidTextInputSnapshot>) -> Option<TextInput> {
    match input {
        Some(input) => Some(input@),
        None => None,
    }
}

impl View for UiState {
    type V = Overlay;

    open spec fn view(&self) -> Overlay {
        Overlay {
            controls: self.controls,
            dialog: dialog_view(self.dialog),
            focus_first_dialog_input: self.focus_first_dialog_input,
            debug_info: self.debug_info,
            android_text_input: text_input_view(self.android_text_input),
            android_text_selection_override: self.android_text_selection_override,
        }
    }
}

impl Overlay {
    pub open spec fn initial() -> Self {
        Overlay {
            controls: Controls::initial(),
            dialog: None,
            focus_first_dialog_input: false,
            debug_info: false,
            android_text_input: None,
            android_text_selection_override: None,
        }
    }

    pub open spec fn with_controls(self, controls: Controls) -> Self {
        Overlay { controls, ..self }
    }

    pub open spec fn noted(self) -> Self {
        self.with_controls(self.controls.noted())
    }

    pub open spec fn with_dialog(self, dialog: Dialog, focus: bool) -> Self {
        Overlay { dialog: Some(dialog), focus_first_dialog_input: focus, ..self }.noted()
    }

    /// The overlay with a message in place of the menu and of every other dialog.
    pub open spec fn with_message(self, dialog: Dialog) -> Self {
        Overlay {
            dialog: Some(dialog),
            controls: Controls { menu_open: false, ..self.controls },
            ..self
        }.noted()
    }

    pub open spec fn closed(self) -> Self {
        Overlay { dialog: None, focus_first_dialog_input: false, ..self }
    }

    /// A text field as it was drawn: the selection that is to be set in it, if one was
    /// asked for, and the overlay with what it holds, if it is the one in use.
    pub open spec fn captured(
        self,
        field: AndroidTextField,
        text: Seq<char>,
        cursor: Option<(usize, usize)>,
        has_focus: bool,
        clicked: bool,
    ) -> (Option<(usize, usize)>, Self) {
        let (set, left) = match self.android_text_selection_override {
            Some((wanted, start, end)) => if wanted == field {
                (Some((start, end)), None)
            } else {
                (None, Some((wanted, start, end)))
            },
            None => (None, None),
        };
        let selection = match (set, cursor) {
            (Some(range), _) => range,
            (None, Some(range)) => range,
            (None, None) => (text.len() as usize, text.len() as usize),
        };
        let input = if has_focus {
            Some(
                TextInput {
                    field,
                    text,
                    selection_start: selection.0,
                    selection_end: selection.1,
                    clicked,
                },
            )
        } else {
            self.android_text_input
        };
        (
            set,
            Overlay {
                android_text_input: input,
                android_text_selection_override: left,
                ..self
            },
        )
    }

    /// The overlay once the on-screen keyboard has changed the text in use.
    pub open spec fn with_text(self, text: Seq<char>, start: usize, end: usize) -> Self {
        match (self.android_text_input, self.dialog) {
            (Some(input), Some(dialog)) => match edited(dialog, input.field, text) {
                Some(dialog) => Overlay {
                    dialog: Some(dialog),
                    android_text_selection_override: Some((input.field, start, end)),
                    ..self
                },
                None => self,
            },
            _ => self,
        }
    }
}

impl UiState {
    pub fn new() -> (ui: Self)
        ensures
            ui@ == Overlay::initial(),
            ui.controls.wf(),
    {
        UiState {
            controls: Controls::new(),
            dialog: None,
            focus_first_dialog_input: false,
            debug_info: false,
            android_text_input: None,
            android_text_selection_override: None,
        }
    }

    pub fn begin_android_ui_frame(&mut self)
        ensures
            final(self)@ == (Overlay { android_text_input: None, ..old(self)@ }),
    {
        self.android_text_input = None;
    }

    /// Shows a dialog.
    pub fn show(&mut self, dialog: DialogState, focus: bool)
        ensures
            final(self)@ == old(self)@.with_dialog(dialog@, focus),
    {
        self.dialog = Some(dialog);
        self.focus_first_dialog_input = focus;
        self.controls.note_interaction();
    }

    /// Shows a message in place of the menu and of every other dialog.
    pub fn show_message(&mut self, dialog: DialogState)
        ensures
            final(self)@ == old(self)@.with_message(dialog@),
    {
        self.controls.menu_open = false;
        self.dialog = Some(dialog);
        self.controls.note_interaction();
    }

    pub fn close_dialog(&mut self)
        ensures
            final(self)@ == old(self)@.closed(),
    {
        self.dialog = None;
        self.focus_first_dialog_input = false;
    }

    /// Takes note of a text field as it was drawn. Returns the selection that is to be set
    /// in it, if one was asked for.
    pub fn capture_android_text_edit(
        &mut self,
        field: AndroidTextField,
        text: &str,
        cursor: Option<(usize, usize)>,
        has_focus: bool,
        clicked: bool,
    ) -> (set: Option<(usize, usize)>)
        ensures
            old(self)@.captured(field, text@, cursor, has_focus, clicked) == (set, final(self)@),
    {
        let mut set: Option<(usize, usize)> = None;
        match self.android_text_selection_override {
            Some((wanted, start, end)) => {
                if wanted == field {
                    self.android_text_selection_override = None;
                    set = Some((start, end));
                }
            },
            None => {},
        }
        if !has_focus {
            return set;
        }
        let fallback: usize = crate::text::chars_of(text).len();
        let (selection_start, selection_end): (usize, usize) = match (set, cursor) {
            (Some((start, end)), _) => (start, end),
            (None, Some((start, end))) => (start, end),
            (None, None) => (fallback, fallback),
        };
        self.android_text_input = Some(
            AndroidTextInputSnapshot {
                field,
                text: text.to_owned(),
                selection_start,
                selection_end,
                clicked,
            },
        );
        set
    }

    /// Takes over the text that the on-screen keyboard holds.
    pub fn apply_android_text_input_state(
        &mut self,
        text: String,
        selection_start: usize,
        selection_end: usize,
    )
        ensures
            final(self)@ == old(self)@.with_text(text@, selection_start, selection_end),
    {
        let field = match &self.android_text_input {
            Some(snapshot) => snapshot.field,
            None => {
                return;
            },
        };
        let mut dialog: Option<DialogState> = None;
        std::mem::swap(&mut dialog, &mut self.dialog);
        let mut updated: bool = true;
        let edited = match (field, dialog) {
            (AndroidTextField::ChangeVideo, Some(DialogState::ChangeVideo { input: _, error })) => Some(
                DialogState::ChangeVideo { input: text, error },
            ),
            (AndroidTextField::SeekTo, Some(DialogState::SeekTo { input: _, error })) => Some(
                DialogState::SeekTo { input: text, error },
            ),
            (
                AndroidTextField::FavouriteQualities,
                Some(DialogState::FavouriteQualities { input: _ }),
            ) => Some(DialogState::FavouriteQualities { input: text }),
            (
                AndroidTextField::SignInUser,
                Some(DialogState::SignIn { user_id: _, device_id }),
            ) => Some(DialogState::SignIn { user_id: text, device_id }),
            (
                AndroidTextField::SignInDevice,
                Some(DialogState::SignIn { user_id, device_id: _ }),
            ) => Some(DialogState::SignIn { user_id, device_id: text }),
            (_, other) => {
                updated = false;
                other
            },
        };
        self.dialog = edited;
        if updated {
            self.android_text_selection_override = Some((field, selection_start, selection_end));
        }
    }
}

/// Controls that nothing keeps hide after two seconds in which nothing was touched while a
/// video plays, and not before.
pub proof fn controls_hide_after_two_seconds(controls: Controls, elapsed: Duration)
    requires
        !controls.menu_open,
        !controls.dragging,
        controls.idle.nanos + elapsed.nanos < 18_446_744_073_709_551_616_000_000_000,
    ensures
        ({
            let after = controls.after(elapsed, true, true, false);
            &&& after.idle.nanos == controls.idle.nanos + elapsed.nanos
            &&& after.visible == (controls.visible && controls.idle.nanos + elapsed.nanos
                < 2_000_000_000)
            &&& after.locked == controls.locked
        }),
{
}

/// Without a video, or while the menu, a dialog or the slider is in use as one plays, the
/// controls show and no time counts as idle. While a video stands still they stay as they
/// are.
pub proof fn controls_stay_while_in_use(
    controls: Controls,
    elapsed: Duration,
    playing: bool,
    dialog_open: bool,
)
    ensures
        ({
            let after = controls.after(elapsed, false, playing, dialog_open);
            after.visible && after.idle.nanos == 0
        }),
        controls.menu_open || controls.dragging || dialog_open ==> {
            let after = controls.after(elapsed, true, true, dialog_open);
            after.visible && after.idle.nanos == 0
        },
        ({
            let after = controls.after(elapsed, true, false, dialog_open);
            after.visible == controls.visible && after.idle.nanos == 0
        }),
        controls.after(elapsed, true, playing, dialog_open).menu_open == controls.menu_open,
{
}

/// The slider follows the finger from where it was taken, between its ends, and what was left
/// of its way back is forgotten.
pub proof fn slider_follows_the_finger(controls: Controls, delta: i32)
    requires
        controls.wf(),
    ensures
        ({
            let taken = controls.drag_begun();
            let moved = taken.dragged(delta);
            let out = controls.drag_fraction + delta;
            &&& taken.dragging && taken.return_from is None && taken.visible
            &&& taken.drag_fraction == controls.drag_fraction
            &&& 0 <= out <= 1_000_000 ==> moved.drag_fraction == out
            &&& out < 0 ==> moved.drag_fraction == 0
            &&& out > 1_000_000 ==> moved.drag_fraction == 1_000_000
            &&& moved.dragging
            &&& moved.locked == controls.locked
        }),
{
}

/// A slider that is let go slides back from where it is, evenly, in half a second.
pub proof fn slider_slides_back_evenly(controls: Controls, elapsed: Duration)
    requires
        controls.wf(),
        0 < controls.drag_fraction,
        elapsed.nanos < 18_446_744_073_709_551_616_000_000_000,
    ensures
        ({
            let released = controls.drag_ended();
            let later = released.slid_back(elapsed);
            let way = controls.drag_fraction * (500_000_000 - elapsed.nanos);
            &&& !released.dragging
            &&& released.drag_fraction == controls.drag_fraction
            &&& elapsed.nanos >= 500_000_000 ==> later.drag_fraction == 0
                && later.return_from is None
            &&& elapsed.nanos < 500_000_000 ==> later.drag_fraction * 500_000_000 <= way < (
            later.drag_fraction + 1) * 500_000_000
        }),
        controls.drag_ended().locked == controls.locked,
{
    if elapsed.nanos < 500_000_000 {
        let from = controls.drag_fraction;
        let left = 500_000_000 - elapsed.nanos;
        assert(0 <= from * left <= 1_000_000 * 500_000_000) by (nonlinear_arith)
            requires
                0 <= from <= 1_000_000,
                0 <= left <= 500_000_000,
        ;
    }
}

/// A message takes the place of the menu and of the dialog that was there, and closing a
/// dialog leaves none.
pub proof fn messages_take_the_place_of_dialogs(overlay: Overlay, dialog: Dialog, focus: bool)
    ensures
        overlay.with_message(dialog).dialog == Some(dialog),
        !overlay.with_message(dialog).controls.menu_open,
        overlay.with_message(dialog).controls.visible,
        overlay.with_dialog(dialog, focus).dialog == Some(dialog),
        overlay.with_dialog(dialog, focus).focus_first_dialog_input == focus,
        overlay.with_dialog(dialog, focus).controls.visible,
        overlay.with_dialog(dialog, focus).controls.menu_open == overlay.controls.menu_open,
        overlay.closed().dialog is None,
        !overlay.closed().focus_first_dialog_input,
        overlay.closed().controls == overlay.controls,
{
}

/// What is written on the keyboard goes to the field in use, if its dialog is open, and the
/// selection is set in it; nothing else changes.
pub proof fn written_text_goes_to_its_field(
    overlay: Overlay,
    input: TextInput,
    text: Seq<char>,
    start: usize,
    end: usize,
    old_text: Seq<char>,
    other: Seq<char>,
    error: Option<Seq<char>>,
)
    requires
        overlay.android_text_input == Some(input),
    ensures
        ({
            let after = overlay.with_text(text, start, end);
            &&& input.field is ChangeVideo && overlay.dialog == Some(
                Dialog::ChangeVideo { input: old_text, error },
            ) ==> after.dialog == Some(Dialog::ChangeVideo { input: text, error })
            &&& input.field is SeekTo && overlay.dialog == Some(
                Dialog::SeekTo { input: old_text, error },
            ) ==> after.dialog == Some(Dialog::SeekTo { input: text, error })
            &&& input.field is FavouriteQualities && overlay.dialog == Some(
                Dialog::FavouriteQualities { input: old_text },
            ) ==> after.dialog == Some(Dialog::FavouriteQualities { input: text })
            &&& input.field is SignInUser && overlay.dialog == Some(
                Dialog::SignIn { user_id: old_text, device_id: other },
            ) ==> after.dialog == Some(Dialog::SignIn { user_id: text, device_id: other })
            &&& input.field is SignInDevice && overlay.dialog == Some(
                Dialog::SignIn { user_id: other, device_id: old_text },
            ) ==> after.dialog == Some(Dialog::SignIn { user_id: other, device_id: text })
            &&& after.dialog != overlay.dialog ==> after.android_text_selection_override == Some(
                (input.field, start, end),
            )
            &&& overlay.dialog is None ==> after == overlay
            &&& after.controls == overlay.controls
        }),
{
}

/// A field that is drawn has the selection set that was asked for in it, once; the one in use
/// is what the keyboard is told of, with its selection or else the end of its text.
pub proof fn drawn_fields_take_their_selection(
    overlay: Overlay,
    field: AndroidTextField,
    text: Seq<char>,
    cursor: Option<(usize, usize)>,
    clicked: bool,
    start: usize,
    end: usize,
)
    requires
        text.len() <= usize::MAX,
    ensures
        ({
            let (set, after) = overlay.captured(field, text, cursor, true, clicked);
            &&& overlay.android_text_selection_override == Some((field, start, end)) ==> set
                == Some((start, end)) && after.android_text_selection_override is None
            &&& overlay.android_text_selection_override is None ==> set is None
                && after.android_text_selection_override is None
            &&& after.android_text_input matches Some(input) && input.field == field && input.text
                == text && input.clicked == clicked && (set is Some ==> Some(
                (input.selection_start, input.selection_end),
            ) == set) && (set is None && cursor is Some ==> Some(
                (input.selection_start, input.selection_end),
            ) == cursor) && (set is None && cursor is None ==> input.selection_start == text.len()
                && input.selection_end == text.len())
        }),
        overlay.captured(field, text, cursor, false, clicked).1.android_text_input
            == overlay.android_text_input,
{
}

} // verus!
