//! The input events that key taps turn into.
use vstd::prelude::*;

verus! {

/// The keys that the keyboard reports as key presses rather than as text.
#[derive(Clone, Copy, Debug, PartialEq, Eq, Structural)]
pub enum KeyCode {
    Backspace,
}

/// Which modifier keys are held down while a key is pressed.
#[derive(Clone, Copy, Debug, PartialEq, Eq, Structural)]
pub struct Modifiers {
    pub alt: bool,
    pub ctrl: bool,
    pub shift: bool,
    pub mac_cmd: bool,
    pub command: bool,
}

impl Modifiers {
    /// No modifier key is held.
    pub open spec fn spec_none() -> Modifiers {
        Modifiers { alt: false, ctrl: false, shift: false, mac_cmd: false, command: false }
    }

    /// No modifier key is held.
    pub fn none() -> (modifiers: Modifiers)
        ensures
            modifiers == Modifiers::spec_none(),
    {
        Modifiers { alt: false, ctrl: false, shift: false, mac_cmd: false, command: false }
    }
}

/// An input event made by the keyboard, waiting to be handed to the host.
#[derive(Debug, PartialEq, Eq)]
pub enum InputEvent {
    /// Text to insert at the cursor.
    Text(String),
    /// A key that went down or up.
    Key {
        key: KeyCode,
        physical_key: Option<KeyCode>,
        pressed: bool,
        repeat: bool,
        modifiers: Modifiers,
    },
}

/// What an [`InputEvent`] stands for in contracts.
pub ghost enum EventModel {
    Text(Seq<char>),
    Key {
        key: KeyCode,
        physical_key: Option<KeyCode>,
        pressed: bool,
        repeat: bool,
        modifiers: Modifiers,
    },
}

impl View for InputEvent {
    type V = EventModel;

    open spec fn view(&self) -> EventModel {
        match self {
            InputEvent::Text(text) => EventModel::Text(text@),
            InputEvent::Key { key, physical_key, pressed, repeat, modifiers } => EventModel::Key {
                key: *key,
                physical_key: *physical_key,
                pressed: *pressed,
                repeat: *repeat,
                modifiers: *modifiers,
            },
        }
    }
}

impl DeepView for InputEvent {
    type V = EventModel;

    open spec fn deep_view(&self) -> EventModel {
        self@
    }
}

/// The event of a tap on backspace: the key goes down once, with no modifier held.
pub open spec fn backspace_event() -> EventModel {
    EventModel::Key {
        key: KeyCode::Backspace,
        physical_key: None,
        pressed: true,
        repeat: false,
        modifiers: Modifiers::spec_none(),
    }
}

impl InputEvent {
    /// The event of a tap on backspace.
    pub fn backspace() -> (event: InputEvent)
        ensures
            event@ == backspace_event(),
    {
        InputEvent::Key {
            key: KeyCode::Backspace,
            physical_key: None,
            pressed: true,
            repeat: false,
            modifiers: Modifiers::none(),
        }
    }

    /// The event that inserts `text`.
    pub fn text(text: &str) -> (event: InputEvent)
        ensures
            event@ == EventModel::Text(text@),
    {
        InputEvent::Text(text.to_owned())
    }

    /// A copy of this event.
    pub fn duplicate(&self) -> (copy: InputEvent)
        ensures
            copy@ == self@,
    {
        match self {
            InputEvent::Text(text) => InputEvent::Text(text.clone()),
            InputEvent::Key { key, physical_key, pressed, repeat, modifiers } => InputEvent::Key {
                key: *key,
                physical_key: *physical_key,
                pressed: *pressed,
                repeat: *repeat,
                modifiers: *modifiers,
            },
        }
    }
}

} // verus!
