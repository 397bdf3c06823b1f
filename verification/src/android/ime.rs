//! The on-screen keyboard, and the text field that it writes in.

use crate::android::utf16;
use crate::android::utf16::{char_index_to_utf16, utf16_index_to_char};
use crate::app::state::{App, AppState};
use crate::app::ui::{AndroidTextField, AndroidTextInputSnapshot, TextInput};
use crate::settings;
use vstd::prelude::*;

verus! {

/// What is shown or hidden, and what the keyboard is told of the text.
#[derive(Debug)]
pub enum ImeAction {
    /// Tells the text and the selection in it, in units of UTF-16.
    SetTextState { text: String, start: usize, end: usize },
    /// Asks for a keyboard for text, with a key that ends the input.
    SetEditorInfo,
    /// Shows the keyboard: as a consequence of something else, or because it was asked for.
    Show { implicit: bool },
    Hide,
}

/// What is shown or hidden, as a value.
pub enum ImeAct {
    SetTextState { text: Seq<char>, start: usize, end: usize },
    SetEditorInfo,
    Show { implicit: bool },
    Hide,
}

impl View for ImeAction {
    type V = ImeAct;

    open spec fn view(&self) -> ImeAct {
        match self {
            ImeAction::SetTextState { text, start, end } => ImeAct::SetTextState {
                text: text@,
                start: *start,
                end: *end,
            },
            ImeAction::SetEditorInfo => ImeAct::SetEditorInfo,
            ImeAction::Show { implicit } => ImeAct::Show { implicit: *implicit },
            ImeAction::Hide => ImeAct::Hide,
        }
    }
}

pub open spec fn acts(actions: Seq<ImeAction>) -> Seq<ImeAct> {
    actions.map_values(|action: ImeAction| action@)
}

/// What the keyboard knows of the field that it writes in. Places are in units of UTF-16.
pub struct AndroidIme {
    pub field: Option<AndroidTextField>,
    pub text: Option<String>,
    pub selection: Option<(usize, usize)>,
    pub compose_region: Option<(usize, usize)>,
}

/// What the keyboard knows, as values.
pub struct Ime {
    pub field: Option<AndroidTextField>,
    pub text: Option<Seq<char>>,
    pub selection: Option<(usize, usize)>,
    pub compose_region: Option<(usize, usize)>,
}

impl View for AndroidIme {
    type V = Ime;

    open spec fn view(&self) -> Ime {
        Ime {
            field: self.field,
            text: settings::optional_view(self.text),
            selection: self.selection,
            compose_region: self.compose_region,
        }
    }
}

/// The selection in a field, in units of UTF-16.
pub open spec fn selection_of(input: TextInput) -> (usize, usize) {
    (
        utf16::utf16_place(input.text, input.selection_start),
        utf16::utf16_place(input.text, input.selection_end),
    )
}

impl Ime {
    pub open spec fn none() -> Self {
        Ime { field: None, text: None, selection: None, compose_region: None }
    }

    /// Whether the keyboard does not know the text of a field as it is.
    pub open spec fn is_behind(self, input: TextInput) -> bool {
        self.field != Some(input.field) || self.text != Some(input.text) || self.selection != Some(
            selection_of(input),
        )
    }

    /// What the keyboard is told of the text, if it has to be.
    pub open spec fn told(self, input: TextInput) -> Seq<ImeAct> {
        if self.is_behind(input) {
            Seq::<ImeAct>::empty().push(
                ImeAct::SetTextState {
                    text: input.text,
                    start: selection_of(input).0,
                    end: selection_of(input).1,
                },
            )
        } else {
            Seq::<ImeAct>::empty()
        }
    }

    /// What is done as the widgets were drawn with a field in use, or none.
    pub open spec fn actions(self, input: Option<TextInput>, tapped: bool) -> Seq<ImeAct> {
        match input {
            Some(input) => if self.field != Some(input.field) {
                self.told(input).push(ImeAct::SetEditorInfo).push(ImeAct::Show { implicit: true })
            } else if input.clicked {
                self.told(input).push(ImeAct::Show { implicit: false })
            } else {
                self.told(input)
            },
            None => if tapped && self.field is Some {
                Seq::<ImeAct>::empty().push(ImeAct::Hide)
            } else {
                Seq::<ImeAct>::empty()
            },
        }
    }

    /// What the keyboard knows then. It keeps a field that is no longer drawn until the user
    /// touches the screen.
    pub open spec fn updated(self, input: Option<TextInput>, tapped: bool) -> Self {
        match input {
            Some(input) => if self.is_behind(input) {
                Ime {
                    field: Some(input.field),
                    text: Some(input.text),
                    selection: Some(selection_of(input)),
                    compose_region: None,
                }
            } else {
                self
            },
            None => if tapped && self.field is Some { Self::none() } else { self },
        }
    }
}

impl AndroidIme {
    pub fn new() -> (ime: Self)
        ensures
            ime@ == Ime::none(),
    {
        AndroidIme { field: None, text: None, selection: None, compose_region: None }
    }

    /// Whether the keyboard does not know the text of a field as it is.
    fn behind(&self, snapshot: &AndroidTextInputSnapshot, start: usize, end: usize) -> (behind: bool)
        requires
            (start, end) == selection_of(snapshot@),
        ensures
            behind == self@.is_behind(snapshot@),
    {
        let same_field: bool = match self.field {
            Some(field) => field == snapshot.field,
            None => false,
        };
        let same_text: bool = match &self.text {
            Some(text) => *text == snapshot.text,
            None => false,
        };
        let same_selection: bool = match self.selection {
            Some((known_start, known_end)) => known_start == start && known_end == end,
            None => false,
        };
        !(same_field && same_text && same_selection)
    }

    /// Brings the keyboard in line with the field that was drawn in use, if any.
    pub fn update(&mut self, snapshot: Option<&AndroidTextInputSnapshot>, user_tapped: bool) -> (actions:
        Vec<ImeAction>)
        ensures
            ({
                let input = match snapshot {
                    Some(snapshot) => Some(snapshot@),
                    None => None,
                };
                &&& acts(actions@) == old(self)@.actions(input, user_tapped)
                &&& final(self)@ == old(self)@.updated(input, user_tapped)
            }),
    {
        let mut actions: Vec<ImeAction> = Vec::new();
        assert(acts(actions@) =~= Seq::<ImeAct>::empty());
        match snapshot {
            None => {
                if user_tapped && self.field.is_some() {
                    actions.push(ImeAction::Hide);
                    assert(acts(actions@) =~= Seq::<ImeAct>::empty().push(ImeAct::Hide));
                    *self = AndroidIme::new();
                }
                actions
            },
            Some(snapshot) => {
                let start = char_index_to_utf16(snapshot.text.as_str(), snapshot.selection_start);
                let end = char_index_to_utf16(snapshot.text.as_str(), snapshot.selection_end);
                let changed_field: bool = match self.field {
                    Some(field) => field != snapshot.field,
                    None => true,
                };
                if self.behind(snapshot, start, end) {
                    actions.push(
                        ImeAction::SetTextState { text: snapshot.text.clone(), start, end },
                    );
                    self.field = Some(snapshot.field);
                    self.text = Some(snapshot.text.clone());
                    self.selection = Some((start, end));
                    self.compose_region = None;
                }
                assert(acts(actions@) =~= old(self)@.told(snapshot@));
                if changed_field {
                    actions.push(ImeAction::SetEditorInfo);
                    actions.push(ImeAction::Show { implicit: true });
                    assert(acts(actions@) =~= old(self)@.told(snapshot@).push(
                        ImeAct::SetEditorInfo,
                    ).push(ImeAct::Show { implicit: true }));
                } else if snapshot.clicked {
                    actions.push(ImeAction::Show { implicit: false });
                    assert(acts(actions@) =~= old(self)@.told(snapshot@).push(
                        ImeAct::Show { implicit: false },
                    ));
                }
                actions
            },
        }
    }

    /// Takes note of what the keyboard holds.
    pub fn accept_text_state(
        &mut self,
        text: String,
        start: usize,
        end: usize,
        compose_region: Option<(usize, usize)>,
    )
        ensures
            final(self)@ == (Ime {
                text: Some(text@),
                selection: Some((start, end)),
                compose_region,
                ..old(self)@
            }),
    {
        self.text = Some(text);
        self.selection = Some((start, end));
        self.compose_region = compose_region;
    }

    /// Takes over what the keyboard holds in the field in use.
    pub fn text_event(
        &mut self,
        state: &mut AppState,
        text: String,
        start: usize,
        end: usize,
        compose_region: Option<(usize, usize)>,
    )
        ensures
            final(self)@ == (Ime {
                text: Some(text@),
                selection: Some((start, end)),
                compose_region,
                ..old(self)@
            }),
            final(state)@ == (App {
                ui: old(state)@.ui.with_text(
                    text@,
                    utf16::char_place(text@, start, 0) as usize,
                    utf16::char_place(text@, end, 0) as usize,
                ),
                ..old(state)@
            }),
            old(state).wf() ==> final(state).wf(),
    {
        let selection_start = utf16_index_to_char(text.as_str(), start);
        let selection_end = utf16_index_to_char(text.as_str(), end);
        self.accept_text_state(text.clone(), start, end, compose_region);
        state.apply_android_text_input_state(text, selection_start, selection_end);
    }
}

/// A keyboard that was told of a field is not told again as long as nothing changes.
pub proof fn keyboard_is_told_once(ime: Ime, input: TextInput, tapped: bool)
    ensures
        ime.updated(Some(input), tapped).told(input).len() == 0,
        !input.clicked ==> ime.updated(Some(input), tapped).actions(Some(input), tapped).len() == 0,
{
}

/// What the keyboard itself wrote is not told back to it.
pub proof fn own_text_is_not_echoed(ime: Ime, input: TextInput, text: Seq<char>, start: usize, end: usize)
    requires
        ime.field == Some(input.field),
        start <= text.len(),
        end <= text.len(),
        input.text == text,
        input.selection_start == start,
        input.selection_end == end,
        utf16::units(text) <= usize::MAX,
    ensures
        !(Ime {
            text: Some(text),
            selection: Some(selection_of(input)),
            ..ime
        }).is_behind(input),
        utf16::char_place(text, selection_of(input).0, 0) == start,
        utf16::char_place(text, selection_of(input).1, 0) == end,
{
    utf16::places_round_trip(text, start);
    utf16::places_round_trip(text, end);
}

/// A field that is entered has the keyboard told of its text and come up; one that is touched
/// again has it come up again, and a touch elsewhere hides it.
pub proof fn keyboard_comes_up_for_a_field(ime: Ime, input: TextInput, tapped: bool)
    ensures
        ime.field != Some(input.field) ==> ime.actions(Some(input), tapped) == seq![
            ImeAct::SetTextState {
                text: input.text,
                start: selection_of(input).0,
                end: selection_of(input).1,
            },
            ImeAct::SetEditorInfo,
            ImeAct::Show { implicit: true },
        ],
        ime.field == Some(input.field) && input.clicked ==> ime.actions(
            Some(input),
            tapped,
        ).last() == (ImeAct::Show { implicit: false }),
        ime.field is Some && tapped ==> ime.actions(None, tapped) == seq![ImeAct::Hide]
            && ime.updated(None, tapped).field is None,
        ime.field is None || !tapped ==> ime.actions(None, tapped).len() == 0 && ime.updated(
            None,
            tapped,
        ) == ime,
        ime.updated(Some(input), tapped).field == Some(input.field),
        ime.updated(Some(input), tapped).text == Some(input.text),
{
}

} // verus!
