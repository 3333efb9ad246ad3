//! Terminal event model and keybind matching.
//!
//! A keybind is a set of event shapes; an incoming event triggers the bind
//! when any shape in the set matches it.  Shapes compare the key code and the
//! modifiers; the press/repeat/release kind is the dispatchers' concern.

use vstd::prelude::*;

verus! {

/// A key on the keyboard, with printable keys carrying their character.
#[derive(Clone, Copy, PartialEq, Eq, Structural, Debug)]
pub enum KeyCode {
    Char(char),
    Left,
    Right,
    Up,
    Down,
    Tab,
    Backspace,
    Enter,
    Esc,
    Home,
    End,
}

/// Modifier keys held together with a key or mouse event.
#[derive(Clone, Copy, PartialEq, Eq, Structural, Debug)]
pub struct KeyModifiers {
    pub control: bool,
    pub alt: bool,
    pub shift: bool,
}

impl KeyModifiers {
    pub fn none() -> (r: KeyModifiers)
        ensures
            r == (KeyModifiers { control: false, alt: false, shift: false }),
    {
        KeyModifiers { control: false, alt: false, shift: false }
    }

    pub fn control() -> (r: KeyModifiers)
        ensures
            r == (KeyModifiers { control: true, alt: false, shift: false }),
    {
        KeyModifiers { control: true, alt: false, shift: false }
    }

    pub fn alt() -> (r: KeyModifiers)
        ensures
            r == (KeyModifiers { control: false, alt: true, shift: false }),
    {
        KeyModifiers { control: false, alt: true, shift: false }
    }

    pub fn shift() -> (r: KeyModifiers)
        ensures
            r == (KeyModifiers { control: false, alt: false, shift: true }),
    {
        KeyModifiers { control: false, alt: false, shift: true }
    }
}

/// Whether a key event is a press, a repeat or a release.
#[derive(Clone, Copy, PartialEq, Eq, Structural, Debug)]
pub enum KeyEventKind {
    Press,
    Repeat,
    Release,
}

/// A key event as the terminal reports it.
#[derive(Clone, Copy, PartialEq, Eq, Structural, Debug)]
pub struct KeyEvent {
    pub code: KeyCode,
    pub modifiers: KeyModifiers,
    pub kind: KeyEventKind,
}

/// The kind of a mouse event.
#[derive(Clone, Copy, PartialEq, Eq, Structural, Debug)]
pub enum MouseEventKind {
    Down,
    Up,
    Drag,
    Moved,
    ScrollDown,
    ScrollUp,
    ScrollLeft,
    ScrollRight,
}

/// A mouse event as the terminal reports it.
#[derive(Clone, Copy, PartialEq, Eq, Structural, Debug)]
pub struct MouseEvent {
    pub kind: MouseEventKind,
    pub modifiers: KeyModifiers,
}

/// A terminal event.
#[derive(Clone, Copy, PartialEq, Eq, Structural, Debug)]
pub enum Event {
    Key(KeyEvent),
    Mouse(MouseEvent),
    Resize(u16, u16),
}

/// Matching of configured event shapes against incoming events.
pub trait Matcher<T> {
    /// What this shape accepts.
    spec fn matches_spec(&self, other: T) -> bool;

    fn matches(&self, other: &T) -> (r: bool)
        ensures
            r == self.matches_spec(*other),
    ;
}

/// The shape of a key event: code and modifiers; the kind is not compared.
#[derive(Clone, Copy, PartialEq, Eq, Structural, Debug)]
pub struct KeyEventDef {
    pub code: KeyCode,
    pub modifiers: KeyModifiers,
}

impl KeyEventDef {
    pub fn new(code: KeyCode, modifiers: KeyModifiers) -> (r: KeyEventDef)
        ensures
            r == (KeyEventDef { code, modifiers }),
    {
        KeyEventDef { code, modifiers }
    }
}

impl Matcher<KeyEvent> for KeyEventDef {
    open spec fn matches_spec(&self, other: KeyEvent) -> bool {
        self.code == other.code && self.modifiers == other.modifiers
    }

    fn matches(&self, other: &KeyEvent) -> (r: bool)
    {
        self.code == other.code && self.modifiers == other.modifiers
    }
}

/// The shape of a mouse event: kind and modifiers.
#[derive(Clone, Copy, PartialEq, Eq, Structural, Debug)]
pub struct MouseEventDef {
    pub kind: MouseEventKind,
    pub modifiers: KeyModifiers,
}

impl MouseEventDef {
    pub fn new(kind: MouseEventKind, modifiers: KeyModifiers) -> (r: MouseEventDef)
        ensures
            r == (MouseEventDef { kind, modifiers }),
    {
        MouseEventDef { kind, modifiers }
    }
}

impl Matcher<MouseEvent> for MouseEventDef {
    open spec fn matches_spec(&self, other: MouseEvent) -> bool {
        self.kind == other.kind && self.modifiers == other.modifiers
    }

    fn matches(&self, other: &MouseEvent) -> (r: bool)
    {
        self.kind == other.kind && self.modifiers == other.modifiers
    }
}

/// One configured event shape: a key shape or a mouse shape.
#[derive(Clone, Copy, PartialEq, Eq, Structural, Debug)]
pub enum EventDef {
    Key(KeyEventDef),
    Mouse(MouseEventDef),
}

impl Matcher<Event> for EventDef {
    open spec fn matches_spec(&self, other: Event) -> bool {
        match (*self, other) {
            (EventDef::Key(kd), Event::Key(ke)) => kd.matches_spec(ke),
            (EventDef::Mouse(md), Event::Mouse(me)) => md.matches_spec(me),
            _ => false,
        }
    }

    fn matches(&self, other: &Event) -> (r: bool)
    {
        match (self, other) {
            (EventDef::Key(kd), Event::Key(ke)) => kd.matches(ke),
            (EventDef::Mouse(md), Event::Mouse(me)) => md.matches(me),
            _ => false,
        }
    }
}

/// A set of event shapes; an event triggers the bind when any shape matches.
#[derive(Clone, PartialEq, Eq, Debug)]
pub struct EventDefSet(pub Vec<EventDef>);

impl EventDefSet {
    pub fn from_key(key_event_def: KeyEventDef) -> (r: EventDefSet)
        ensures
            r.0@ == seq![EventDef::Key(key_event_def)],
    {
        let mut v: Vec<EventDef> = Vec::new();
        v.push(EventDef::Key(key_event_def));
        proof {
            assert(v@ =~= seq![EventDef::Key(key_event_def)]);
        }
        EventDefSet(v)
    }

    pub fn from_two_keys(first: KeyEventDef, second: KeyEventDef) -> (r: EventDefSet)
        ensures
            r.0@ == seq![EventDef::Key(first), EventDef::Key(second)],
    {
        let mut v: Vec<EventDef> = Vec::new();
        v.push(EventDef::Key(first));
        v.push(EventDef::Key(second));
        proof {
            assert(v@ =~= seq![EventDef::Key(first), EventDef::Key(second)]);
        }
        EventDefSet(v)
    }
}

impl Matcher<Event> for EventDefSet {
    open spec fn matches_spec(&self, other: Event) -> bool {
        exists|i: int| 0 <= i < self.0@.len() && (#[trigger] self.0@[i]).matches_spec(other)
    }

    fn matches(&self, other: &Event) -> (r: bool)
    {
        let n = self.0.len();
        let mut i: usize = 0;
        while i < n
            invariant
                i <= n,
                n == self.0@.len(),
                forall|j: int| 0 <= j < i ==> !(#[trigger] self.0@[j]).matches_spec(*other),
            decreases n - i,
        {
            if self.0[i].matches(other) {
                return true;
            }
            i += 1;
        }
        false
    }
}

} // verus!
