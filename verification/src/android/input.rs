//! Touches and keys, as Android reports them and as the widgets take them.

use vstd::prelude::*;

verus! {

/// A place on the screen in points. The coordinates are carried through as the bits of the
/// numbers that Android gives.
#[derive(Clone, Copy, Debug, PartialEq, Eq, Structural)]
pub struct Pos {
    pub x_bits: u32,
    pub y_bits: u32,
}

#[derive(Clone, Copy, Debug, PartialEq, Eq, Structural)]
pub enum TouchPhase {
    Start,
    Move,
    End,
    Cancel,
}

/// The keys that are held down with others.
#[derive(Clone, Copy, Debug, PartialEq, Eq, Structural)]
pub struct Modifiers {
    pub alt: bool,
    pub ctrl: bool,
    pub shift: bool,
    pub mac_cmd: bool,
    pub command: bool,
}

/// The keys that the widgets tell apart.
#[derive(Clone, Copy, Debug, PartialEq, Eq, Structural)]
pub enum UiKey {
    ArrowUp,
    ArrowDown,
    ArrowLeft,
    ArrowRight,
    Escape,
    Tab,
    Enter,
    Space,
    Backspace,
    Delete,
    Home,
    End,
    PageUp,
    PageDown,
    /// The key that is named by a character.
    Named(char),
}

/// What the widgets are told.
#[derive(Clone, Copy, Debug, PartialEq, Eq, Structural)]
pub enum UiEvent {
    Touch { device: u64, id: u64, phase: TouchPhase, pos: Pos },
    PointerMoved(Pos),
    PointerButton { pos: Pos, pressed: bool, modifiers: Modifiers },
    PointerGone,
    Key { key: UiKey, pressed: bool, repeat: bool, modifiers: Modifiers },
    Text(char),
}

/// What fingers do.
#[derive(Clone, Copy, Debug, PartialEq, Eq, Structural)]
pub enum MotionAction {
    Down,
    PointerDown,
    Move,
    Up,
    PointerUp,
    Cancel,
    Other,
}

/// A finger and where it is.
#[derive(Clone, Copy, Debug, PartialEq, Eq, Structural)]
pub struct Pointer {
    pub id: i32,
    pub pos: Pos,
}

/// The keys of Android that have a meaning of their own.
#[derive(Clone, Copy, Debug, PartialEq, Eq, Structural)]
pub enum Keycode {
    DpadUp,
    DpadDown,
    DpadLeft,
    DpadRight,
    Escape,
    Tab,
    Enter,
    NumpadEnter,
    Space,
    Del,
    ForwardDel,
    MoveHome,
    MoveEnd,
    PageUp,
    PageDown,
    Back,
    Other,
}

#[derive(Clone, Copy, Debug, PartialEq, Eq, Structural)]
pub enum KeyAction {
    Down,
    Up,
    Multiple,
}

/// What the map of a keyboard says of a key.
#[derive(Clone, Copy, Debug, PartialEq, Eq, Structural)]
pub enum KeyMapChar {
    Unicode(char),
    /// An accent that goes on the next character.
    CombiningAccent(char),
    /// Nothing, or there is no map.
    Nothing,
}

/// A key that goes down or up.
#[derive(Clone, Copy, Debug, PartialEq, Eq, Structural)]
pub struct KeyPress {
    pub device_id: i32,
    pub code: Keycode,
    pub action: KeyAction,
    pub alt: bool,
    pub ctrl: bool,
    pub shift: bool,
    pub repeat_count: i32,
    pub mapped: KeyMapChar,
    /// The character together with the accent before it, where the map has one.
    pub combined: Option<char>,
}

/// Whether an event was of use.
#[derive(Clone, Copy, Debug, PartialEq, Eq, Structural)]
pub enum InputStatus {
    Handled,
    Unhandled,
}

/// Whether the widgets have a key that is named by a character.
pub uninterp spec fn names_a_key(c: char) -> bool;

/// `egui::Key::from_name` finds the key that a name stands for; whether there is one for the
/// name that is a single character depends on that character alone.
#[verifier::external_body]
fn names_key(c: char) -> (names: bool)
    ensures
        names == names_a_key(c),
{
    egui::Key::from_name(&c.to_string()).is_some()
}

/// A number that is never negative.
pub open spec fn id_of(n: i32) -> u64 {
    if n < 0 { 0 } else { n as u64 }
}

fn positive(n: i32) -> (id: u64)
    ensures
        id == id_of(n),
{
    if n < 0 { 0 } else { n as u64 }
}

/// The key that a key of Android always is.
pub open spec fn fixed_key(code: Keycode) -> Option<UiKey> {
    match code {
        Keycode::DpadUp => Some(UiKey::ArrowUp),
        Keycode::DpadDown => Some(UiKey::ArrowDown),
        Keycode::DpadLeft => Some(UiKey::ArrowLeft),
        Keycode::DpadRight => Some(UiKey::ArrowRight),
        Keycode::Escape => Some(UiKey::Escape),
        Keycode::Tab => Some(UiKey::Tab),
        Keycode::Enter | Keycode::NumpadEnter => Some(UiKey::Enter),
        Keycode::Space => Some(UiKey::Space),
        Keycode::Del => Some(UiKey::Backspace),
        Keycode::ForwardDel => Some(UiKey::Delete),
        Keycode::MoveHome => Some(UiKey::Home),
        Keycode::MoveEnd => Some(UiKey::End),
        Keycode::PageUp => Some(UiKey::PageUp),
        Keycode::PageDown => Some(UiKey::PageDown),
        Keycode::Back | Keycode::Other => None,
    }
}

pub fn egui_key(code: Keycode) -> (key: Option<UiKey>)
    ensures
        key == fixed_key(code),
{
    match code {
        Keycode::DpadUp => Some(UiKey::ArrowUp),
        Keycode::DpadDown => Some(UiKey::ArrowDown),
        Keycode::DpadLeft => Some(UiKey::ArrowLeft),
        Keycode::DpadRight => Some(UiKey::ArrowRight),
        Keycode::Escape => Some(UiKey::Escape),
        Keycode::Tab => Some(UiKey::Tab),
        Keycode::Enter | Keycode::NumpadEnter => Some(UiKey::Enter),
        Keycode::Space => Some(UiKey::Space),
        Keycode::Del => Some(UiKey::Backspace),
        Keycode::ForwardDel => Some(UiKey::Delete),
        Keycode::MoveHome => Some(UiKey::Home),
        Keycode::MoveEnd => Some(UiKey::End),
        Keycode::PageUp => Some(UiKey::PageUp),
        Keycode::PageDown => Some(UiKey::PageDown),
        Keycode::Back | Keycode::Other => None,
    }
}

/// Whether a character is a control code.
pub open spec fn is_control(c: char) -> bool {
    (c as u32) < 0x20 || (0x7f <= c as u32 && c as u32 <= 0x9f)
}

fn control(c: char) -> (control: bool)
    ensures
        control == is_control(c),
{
    (c as u32) < 0x20 || (0x7f <= c as u32 && c as u32 <= 0x9f)
}

/// The modifiers of a key; the command key of the widgets is the control key.
pub open spec fn modifiers_of(press: KeyPress) -> Modifiers {
    Modifiers {
        alt: press.alt,
        ctrl: press.ctrl,
        shift: press.shift,
        mac_cmd: false,
        command: press.ctrl,
    }
}

impl KeyPress {
    /// The character that a key stands for, after an accent or none. Keys without a keyboard
    /// stand for none.
    pub open spec fn character(self, accent: Option<char>) -> Option<char> {
        match self.mapped {
            KeyMapChar::Unicode(c) => if self.device_id == 0 {
                None
            } else if self.action == KeyAction::Down && accent is Some {
                match self.combined {
                    Some(combined) => Some(combined),
                    None => Some(c),
                }
            } else {
                Some(c)
            },
            _ => None,
        }
    }

    /// The accent that goes on the next character.
    pub open spec fn accent_after(self, accent: Option<char>) -> Option<char> {
        if self.device_id == 0 || self.action != KeyAction::Down {
            accent
        } else {
            match self.mapped {
                KeyMapChar::Unicode(_) => None,
                KeyMapChar::CombiningAccent(next) => Some(next),
                KeyMapChar::Nothing => accent,
            }
        }
    }

    /// The key of the widgets.
    pub open spec fn key(self, accent: Option<char>) -> Option<UiKey> {
        match fixed_key(self.code) {
            Some(key) => Some(key),
            None => match self.character(accent) {
                Some(c) => if names_a_key(c) { Some(UiKey::Named(c)) } else { None },
                None => None,
            },
        }
    }

    /// What a key tells the widgets as a key of theirs.
    pub open spec fn event(self, key: UiKey) -> UiEvent {
        UiEvent::Key {
            key,
            pressed: self.action == KeyAction::Down,
            repeat: self.action == KeyAction::Down && self.repeat_count > 0,
            modifiers: modifiers_of(self),
        }
    }

    /// Whether a character is written: as the key goes down without the control key.
    pub open spec fn writes(self, c: char) -> bool {
        self.action == KeyAction::Down && !self.ctrl && !is_control(c)
    }
}

/// What was touched and pressed since the widgets were last told, and what is held.
pub struct AndroidInput {
    pub events: Vec<UiEvent>,
    pub primary_touch_id: Option<i32>,
    pub modifiers: Modifiers,
    pub combining_accent: Option<char>,
    pub primary_pointer_pressed: bool,
}

/// What was touched and pressed, as values.
pub struct Input {
    pub events: Seq<UiEvent>,
    pub primary_touch_id: Option<i32>,
    pub modifiers: Modifiers,
    pub combining_accent: Option<char>,
    pub primary_pointer_pressed: bool,
}

impl View for AndroidInput {
    type V = Input;

    open spec fn view(&self) -> Input {
        Input {
            events: self.events@,
            primary_touch_id: self.primary_touch_id,
            modifiers: self.modifiers,
            combining_accent: self.combining_accent,
            primary_pointer_pressed: self.primary_pointer_pressed,
        }
    }
}

impl Input {
    pub open spec fn with(self, event: UiEvent) -> Self {
        Input { events: self.events.push(event), ..self }
    }

    pub open spec fn touched(self, device: i32, pointer: Pointer, phase: TouchPhase) -> Self {
        self.with(
            UiEvent::Touch {
                device: id_of(device),
                id: id_of(pointer.id),
                phase,
                pos: pointer.pos,
            },
        )
    }

    /// The first finger down is the pointer of the widgets.
    pub open spec fn pressed(self, pointer: Pointer) -> Self {
        if self.primary_touch_id is None {
            Input {
                primary_pointer_pressed: true,
                primary_touch_id: Some(pointer.id),
                ..self
            }.with(UiEvent::PointerMoved(pointer.pos)).with(
                UiEvent::PointerButton {
                    pos: pointer.pos,
                    pressed: true,
                    modifiers: self.modifiers,
                },
            )
        } else {
            self
        }
    }

    pub open spec fn moved(self, pointer: Pointer) -> Self {
        if self.primary_touch_id == Some(pointer.id) {
            self.with(UiEvent::PointerMoved(pointer.pos))
        } else {
            self
        }
    }

    pub open spec fn released(self, pointer: Pointer) -> Self {
        if self.primary_touch_id == Some(pointer.id) {
            Input {
                primary_touch_id: None,
                ..self.with(
                    UiEvent::PointerButton {
                        pos: pointer.pos,
                        pressed: false,
                        modifiers: self.modifiers,
                    },
                ).with(UiEvent::PointerGone)
            }
        } else {
            self
        }
    }

    pub open spec fn cancelled(self) -> Self {
        if self.primary_touch_id is Some {
            Input { primary_touch_id: None, ..self }.with(UiEvent::PointerGone)
        } else {
            self
        }
    }

    /// Every one of the fingers moved.
    pub open spec fn all_moved(self, device: i32, pointers: Seq<Pointer>) -> Self
        decreases pointers.len(),
    {
        if pointers.len() == 0 {
            self
        } else {
            self.all_moved(device, pointers.drop_last()).touched(
                device,
                pointers.last(),
                TouchPhase::Move,
            ).moved(pointers.last())
        }
    }

    /// Every one of the touches cancelled.
    pub open spec fn all_cancelled(self, device: i32, pointers: Seq<Pointer>) -> Self
        decreases pointers.len(),
    {
        if pointers.len() == 0 {
            self
        } else {
            self.all_cancelled(device, pointers.drop_last()).touched(
                device,
                pointers.last(),
                TouchPhase::Cancel,
            )
        }
    }

    /// The state after a motion of the finger at `index` among `pointers`, or of all.
    pub open spec fn after_motion(
        self,
        device: i32,
        action: MotionAction,
        index: int,
        pointers: Seq<Pointer>,
    ) -> Self {
        match action {
            MotionAction::Down | MotionAction::PointerDown => self.touched(
                device,
                pointers[index],
                TouchPhase::Start,
            ).pressed(pointers[index]),
            MotionAction::Move => self.all_moved(device, pointers),
            MotionAction::Up | MotionAction::PointerUp => self.touched(
                device,
                pointers[index],
                TouchPhase::End,
            ).released(pointers[index]),
            MotionAction::Cancel => self.all_cancelled(device, pointers).cancelled(),
            MotionAction::Other => self,
        }
    }

    /// The state after a key, with the key of the widgets that it is, if any.
    pub open spec fn after_key(self, press: KeyPress) -> Self {
        if press.code == Keycode::Back {
            self
        } else {
            Input {
                modifiers: modifiers_of(press),
                combining_accent: press.accent_after(self.combining_accent),
                ..self
            }.with_key(
                press,
                press.key(self.combining_accent),
                press.character(self.combining_accent),
            )
        }
    }

    /// The state once the widgets are told of a key, as the key of theirs and the character
    /// that it is, if any.
    pub open spec fn with_key(self, press: KeyPress, key: Option<UiKey>, character: Option<char>) -> Self {
        let keyed = match key {
            Some(key) => self.with(press.event(key)),
            None => self,
        };
        match character {
            Some(c) => if press.writes(c) { keyed.with(UiEvent::Text(c)) } else { keyed },
            None => keyed,
        }
    }

    /// Whether a key is of use.
    pub open spec fn key_status(self, press: KeyPress) -> InputStatus {
        if press.code != Keycode::Back && (press.key(self.combining_accent) is Some
            || press.character(self.combining_accent) is Some) {
            InputStatus::Handled
        } else {
            InputStatus::Unhandled
        }
    }

    /// The state after the action key of the on-screen keyboard: Enter, pressed and released.
    pub open spec fn after_text_action(self) -> Self {
        self.with(
            UiEvent::Key {
                key: UiKey::Enter,
                pressed: true,
                repeat: false,
                modifiers: self.modifiers,
            },
        ).with(
            UiEvent::Key {
                key: UiKey::Enter,
                pressed: false,
                repeat: false,
                modifiers: self.modifiers,
            },
        )
    }
}

impl AndroidInput {
    pub fn new() -> (input: Self)
        ensures
            input@ == (Input {
                events: Seq::empty(),
                primary_touch_id: None,
                modifiers: (Modifiers {
                    alt: false,
                    ctrl: false,
                    shift: false,
                    mac_cmd: false,
                    command: false,
                }),
                combining_accent: None,
                primary_pointer_pressed: false,
            }),
    {
        AndroidInput {
            events: Vec::new(),
            primary_touch_id: None,
            modifiers: Modifiers {
                alt: false,
                ctrl: false,
                shift: false,
                mac_cmd: false,
                command: false,
            },
            combining_accent: None,
            primary_pointer_pressed: false,
        }
    }

    fn push_touch(&mut self, device_id: i32, pointer: Pointer, phase: TouchPhase)
        ensures
            final(self)@ == old(self)@.touched(device_id, pointer, phase),
    {
        self.events.push(
            UiEvent::Touch {
                device: positive(device_id),
                id: positive(pointer.id),
                phase,
                pos: pointer.pos,
            },
        );
    }

    fn press_primary(&mut self, pointer: Pointer)
        ensures
            final(self)@ == old(self)@.pressed(pointer),
    {
        if self.primary_touch_id.is_none() {
            self.primary_pointer_pressed = true;
            self.primary_touch_id = Some(pointer.id);
            self.events.push(UiEvent::PointerMoved(pointer.pos));
            self.events.push(
                UiEvent::PointerButton {
                    pos: pointer.pos,
                    pressed: true,
                    modifiers: self.modifiers,
                },
            );
        }
    }

    fn is_primary(&self, pointer: Pointer) -> (primary: bool)
        ensures
            primary == (self.primary_touch_id == Some(pointer.id)),
    {
        match self.primary_touch_id {
            Some(id) => id == pointer.id,
            None => false,
        }
    }

    fn move_primary(&mut self, pointer: Pointer)
        ensures
            final(self)@ == old(self)@.moved(pointer),
    {
        if self.is_primary(pointer) {
            self.events.push(UiEvent::PointerMoved(pointer.pos));
        }
    }

    fn release_primary(&mut self, pointer: Pointer)
        ensures
            final(self)@ == old(self)@.released(pointer),
    {
        if self.is_primary(pointer) {
            self.events.push(
                UiEvent::PointerButton {
                    pos: pointer.pos,
                    pressed: false,
                    modifiers: self.modifiers,
                },
            );
            self.events.push(UiEvent::PointerGone);
            self.primary_touch_id = None;
        }
    }

    fn cancel_primary(&mut self)
        ensures
            final(self)@ == old(self)@.cancelled(),
    {
        if self.primary_touch_id.is_some() {
            self.primary_touch_id = None;
            self.events.push(UiEvent::PointerGone);
        }
    }

    fn move_all(&mut self, device_id: i32, pointers: &Vec<Pointer>)
        ensures
            final(self)@ == old(self)@.all_moved(device_id, pointers@),
    {
        let mut i: usize = 0;
        assert(pointers@.take(0) =~= Seq::<Pointer>::empty());
        while i < pointers.len()
            invariant
                i <= pointers.len(),
                self@ == old(self)@.all_moved(device_id, pointers@.take(i as int)),
            decreases pointers.len() - i,
        {
            assert(pointers@.take(i + 1).drop_last() =~= pointers@.take(i as int));
            self.push_touch(device_id, pointers[i], TouchPhase::Move);
            self.move_primary(pointers[i]);
            i += 1;
        }
        assert(pointers@.take(pointers@.len() as int) =~= pointers@);
    }

    fn cancel_all(&mut self, device_id: i32, pointers: &Vec<Pointer>)
        ensures
            final(self)@ == old(self)@.all_cancelled(device_id, pointers@),
    {
        let mut i: usize = 0;
        assert(pointers@.take(0) =~= Seq::<Pointer>::empty());
        while i < pointers.len()
            invariant
                i <= pointers.len(),
                self@ == old(self)@.all_cancelled(device_id, pointers@.take(i as int)),
            decreases pointers.len() - i,
        {
            assert(pointers@.take(i + 1).drop_last() =~= pointers@.take(i as int));
            self.push_touch(device_id, pointers[i], TouchPhase::Cancel);
            i += 1;
        }
        assert(pointers@.take(pointers@.len() as int) =~= pointers@);
    }

    /// Takes note of a motion of the finger at `index` among `pointers`, or of all.
    pub fn motion(
        &mut self,
        device_id: i32,
        action: MotionAction,
        index: usize,
        pointers: &Vec<Pointer>,
    ) -> (status: InputStatus)
        requires
            action is Down || action is PointerDown || action is Up || action is PointerUp ==> index
                < pointers@.len(),
        ensures
            final(self)@ == old(self)@.after_motion(device_id, action, index as int, pointers@),
            status == InputStatus::Handled,
    {
        match action {
            MotionAction::Down | MotionAction::PointerDown => {
                self.push_touch(device_id, pointers[index], TouchPhase::Start);
                self.press_primary(pointers[index]);
            },
            MotionAction::Move => self.move_all(device_id, pointers),
            MotionAction::Up | MotionAction::PointerUp => {
                self.push_touch(device_id, pointers[index], TouchPhase::End);
                self.release_primary(pointers[index]);
            },
            MotionAction::Cancel => {
                self.cancel_all(device_id, pointers);
                self.cancel_primary();
            },
            MotionAction::Other => {},
        }
        InputStatus::Handled
    }

    /// The accent and the character that the map of a keyboard is to be asked to combine, if
    /// the key is to be combined with an accent before it.
    pub fn dead_key(&self, press: &KeyPress) -> (pair: Option<(char, char)>)
        ensures
            pair == (match (self@.combining_accent, press.mapped) {
                (Some(accent), KeyMapChar::Unicode(c)) => if press.device_id != 0 && press.action
                    == KeyAction::Down {
                    Some((accent, c))
                } else {
                    None
                },
                _ => None,
            }),
    {
        if press.device_id == 0 || press.action != KeyAction::Down {
            return None;
        }
        match self.combining_accent {
            Some(accent) => match press.mapped {
                KeyMapChar::Unicode(c) => Some((accent, c)),
                _ => None,
            },
            None => None,
        }
    }

    /// The character that a key stands for. Takes the accent before it, or keeps one for the
    /// next.
    fn key_map_character(&mut self, press: &KeyPress) -> (mapped: Option<char>)
        ensures
            mapped == press.character(old(self)@.combining_accent),
            final(self)@ == (Input {
                combining_accent: press.accent_after(old(self)@.combining_accent),
                ..old(self)@
            }),
    {
        if press.device_id == 0 {
            return None;
        }
        match press.mapped {
            KeyMapChar::Unicode(c) => {
                if press.action != KeyAction::Down {
                    return Some(c);
                }
                let accent = self.combining_accent;
                self.combining_accent = None;
                match accent {
                    Some(_) => match press.combined {
                        Some(combined) => Some(combined),
                        None => Some(c),
                    },
                    None => Some(c),
                }
            },
            KeyMapChar::CombiningAccent(accent) => {
                if press.action == KeyAction::Down {
                    self.combining_accent = Some(accent);
                }
                None
            },
            KeyMapChar::Nothing => None,
        }
    }

    /// Takes note of a key with the key of the widgets that it is, if any, and the character
    /// that it stands for, if any.
    fn push_key(&mut self, press: &KeyPress, key: Option<UiKey>, mapped: Option<char>)
        requires
            old(self)@.modifiers == modifiers_of(*press),
        ensures
            final(self)@ == old(self)@.with_key(*press, key, mapped),
    {
        let pressed: bool = press.action == KeyAction::Down;
        if let Some(key) = key {
            self.events.push(
                UiEvent::Key {
                    key,
                    pressed,
                    repeat: pressed && press.repeat_count > 0,
                    modifiers: self.modifiers,
                },
            );
        }
        if pressed && !press.ctrl {
            if let Some(c) = mapped {
                if !control(c) {
                    self.events.push(UiEvent::Text(c));
                }
            }
        }
    }

    /// Takes note of a key.
    pub fn key(&mut self, press: &KeyPress) -> (status: InputStatus)
        ensures
            final(self)@ == old(self)@.after_key(*press),
            status == old(self)@.key_status(*press),
    {
        if press.code == Keycode::Back {
            return InputStatus::Unhandled;
        }
        self.modifiers = Modifiers {
            alt: press.alt,
            ctrl: press.ctrl,
            shift: press.shift,
            mac_cmd: false,
            command: press.ctrl,
        };
        let mapped = self.key_map_character(press);
        let key: Option<UiKey> = match egui_key(press.code) {
            Some(key) => Some(key),
            None => match mapped {
                Some(c) => if names_key(c) { Some(UiKey::Named(c)) } else { None },
                None => None,
            },
        };
        self.push_key(press, key, mapped);
        if key.is_some() || mapped.is_some() {
            InputStatus::Handled
        } else {
            InputStatus::Unhandled
        }
    }

    /// Takes note of the action key of the on-screen keyboard.
    pub fn text_action(&mut self) -> (status: InputStatus)
        ensures
            final(self)@ == old(self)@.after_text_action(),
            status == InputStatus::Handled,
    {
        self.events.push(
            UiEvent::Key {
                key: UiKey::Enter,
                pressed: true,
                repeat: false,
                modifiers: self.modifiers,
            },
        );
        self.events.push(
            UiEvent::Key {
                key: UiKey::Enter,
                pressed: false,
                repeat: false,
                modifiers: self.modifiers,
            },
        );
        InputStatus::Handled
    }

    /// Takes what the widgets are to be told.
    pub fn take_events(&mut self) -> (events: Vec<UiEvent>)
        ensures
            events@ == old(self)@.events,
            final(self)@ == (Input { events: Seq::empty(), ..old(self)@ }),
    {
        let mut events: Vec<UiEvent> = Vec::new();
        std::mem::swap(&mut events, &mut self.events);
        events
    }

    /// Takes note of whether the pointer went down since this was last asked.
    pub fn take_tap(&mut self) -> (tapped: bool)
        ensures
            tapped == old(self)@.primary_pointer_pressed,
            final(self)@ == (Input { primary_pointer_pressed: false, ..old(self)@ }),
    {
        let tapped: bool = self.primary_pointer_pressed;
        self.primary_pointer_pressed = false;
        tapped
    }
}

/// The pointer of the widgets is one finger from the time it goes down to the time it goes
/// up: other fingers neither move nor release it.
pub proof fn other_fingers_leave_the_pointer(input: Input, primary: i32, other: Pointer)
    requires
        input.primary_touch_id == Some(primary),
        other.id != primary,
    ensures
        input.pressed(other) == input,
        input.moved(other) == input,
        input.released(other) == input,
{
}

/// A finger that goes down and up leaves no pointer behind.
pub proof fn tap_leaves_no_pointer(input: Input, device: i32, pointer: Pointer)
    requires
        input.primary_touch_id is None,
    ensures
        ({
            let down = input.after_motion(device, MotionAction::Down, 0, seq![pointer]);
            let up = down.after_motion(device, MotionAction::Up, 0, seq![pointer]);
            &&& down.primary_touch_id == Some(pointer.id)
            &&& down.primary_pointer_pressed
            &&& up.primary_touch_id is None
            &&& up.events.last() == UiEvent::PointerGone
        }),
{
}

/// Nothing that was touched or pressed is forgotten before the widgets are told.
pub proof fn motions_only_add_events(
    input: Input,
    device: i32,
    action: MotionAction,
    index: int,
    pointers: Seq<Pointer>,
)
    ensures
        input.events.is_prefix_of(input.after_motion(device, action, index, pointers).events),
{
    moves_only_add_events(input, device, pointers);
    cancels_only_add_events(input, device, pointers);
    let touched = input.touched(device, pointers[index], TouchPhase::Start);
    assert(input.events.is_prefix_of(touched.pressed(pointers[index]).events));
}

proof fn moves_only_add_events(input: Input, device: i32, pointers: Seq<Pointer>)
    ensures
        input.events.is_prefix_of(input.all_moved(device, pointers).events),
    decreases pointers.len(),
{
    if pointers.len() > 0 {
        moves_only_add_events(input, device, pointers.drop_last());
    }
}

proof fn cancels_only_add_events(input: Input, device: i32, pointers: Seq<Pointer>)
    ensures
        input.events.is_prefix_of(input.all_cancelled(device, pointers).events),
    decreases pointers.len(),
{
    if pointers.len() > 0 {
        cancels_only_add_events(input, device, pointers.drop_last());
    }
}

/// The first finger is the pointer: it presses where it comes down, moves where it goes, and
/// lets go where it comes up. All fingers are told of as touches.
pub proof fn first_finger_is_the_pointer(input: Input, device: i32, pointer: Pointer, later: Pointer)
    requires
        input.primary_touch_id is None,
        device >= 0,
        pointer.id >= 0,
        later.id == pointer.id,
    ensures
        ({
            let down = input.after_motion(device, MotionAction::Down, 0, seq![pointer]);
            let moved = down.after_motion(device, MotionAction::Move, 0, seq![later]);
            let up = down.after_motion(device, MotionAction::Up, 0, seq![later]);
            &&& down.events == input.events.push(
                UiEvent::Touch {
                    device: device as u64,
                    id: pointer.id as u64,
                    phase: TouchPhase::Start,
                    pos: pointer.pos,
                },
            ).push(UiEvent::PointerMoved(pointer.pos)).push(
                UiEvent::PointerButton {
                    pos: pointer.pos,
                    pressed: true,
                    modifiers: input.modifiers,
                },
            )
            &&& moved.events == down.events.push(
                UiEvent::Touch {
                    device: device as u64,
                    id: pointer.id as u64,
                    phase: TouchPhase::Move,
                    pos: later.pos,
                },
            ).push(UiEvent::PointerMoved(later.pos))
            &&& up.events == down.events.push(
                UiEvent::Touch {
                    device: device as u64,
                    id: pointer.id as u64,
                    phase: TouchPhase::End,
                    pos: later.pos,
                },
            ).push(
                UiEvent::PointerButton {
                    pos: later.pos,
                    pressed: false,
                    modifiers: input.modifiers,
                },
            ).push(UiEvent::PointerGone)
        }),
{
    let one = seq![later];
    assert(one.drop_last() =~= Seq::<Pointer>::empty());
    let down = input.after_motion(device, MotionAction::Down, 0, seq![pointer]);
    assert(down.all_moved(device, one.drop_last()) == down);
}

/// A key that goes down or comes up is told of with what is held beside it; a character is
/// written when its key goes down, unless it controls or is held with control. The key that
/// goes back is left to the system.
pub proof fn keys_are_told_of_and_written(input: Input, press: KeyPress, key: UiKey, c: char)
    requires
        press.code != Keycode::Back,
        press.key(input.combining_accent) == Some(key),
        press.character(input.combining_accent) == Some(c),
        (c as u32) >= 32,
        !(127 <= c as u32 <= 159),
    ensures
        ({
            let told = UiEvent::Key {
                key,
                pressed: press.action == KeyAction::Down,
                repeat: press.action == KeyAction::Down && press.repeat_count > 0,
                modifiers: Modifiers {
                    alt: press.alt,
                    ctrl: press.ctrl,
                    shift: press.shift,
                    mac_cmd: false,
                    command: press.ctrl,
                },
            };
            &&& press.action == KeyAction::Down && !press.ctrl ==> input.after_key(press).events
                == input.events.push(told).push(UiEvent::Text(c))
            &&& press.action != KeyAction::Down || press.ctrl ==> input.after_key(press).events
                == input.events.push(told)
            &&& input.key_status(press) == InputStatus::Handled
        }),
{
}

/// The key that goes back is left to the system.
pub proof fn back_is_left_to_the_system(input: Input, press: KeyPress)
    requires
        press.code == Keycode::Back,
    ensures
        input.after_key(press) == input,
        input.key_status(press) == InputStatus::Unhandled,
{
}

/// An accent waits for the character it belongs to, which is then written with it.
pub proof fn accents_wait_for_their_character(press: KeyPress, accent: char, next: char, c: char)
    requires
        press.device_id != 0,
        press.action == KeyAction::Down,
    ensures
        press.mapped == KeyMapChar::CombiningAccent(next) ==> press.accent_after(Some(accent))
            == Some(next) && press.character(Some(accent)) is None,
        press.mapped == KeyMapChar::Unicode(c) ==> press.accent_after(Some(accent)) is None
            && press.character(None) == Some(c) && press.character(Some(accent)) == Some(
            match press.combined {
                Some(combined) => combined,
                None => c,
            },
        ),
        press.mapped == KeyMapChar::Nothing ==> press.accent_after(Some(accent)) == Some(accent)
            && press.character(Some(accent)) is None,
{
}

} // verus!
