//! The result viewer's keymap: which navigation operation an event asks of
//! the foldable JSON view.  The view structure itself — rows, folding and
//! drawing — lives outside; what is verified here is the decision.

use vstd::prelude::*;

use crate::event::{Event, EventDefSet, KeyCode, KeyEventDef, KeyModifiers, Matcher};

verus! {

/// A navigation operation on the foldable view.
#[derive(Clone, Copy, PartialEq, Eq, Structural, Debug)]
pub enum ViewerOp {
    Up,
    Down,
    MoveToHead,
    MoveToTail,
    Toggle,
    ExpandAll,
    CollapseAll,
}

/// One set of event shapes per viewer operation.
pub struct ViewerKeybinds {
    pub up: EventDefSet,
    pub down: EventDefSet,
    pub move_to_head: EventDefSet,
    pub move_to_tail: EventDefSet,
    pub toggle: EventDefSet,
    pub expand: EventDefSet,
    pub collapse: EventDefSet,
}

impl ViewerKeybinds {
    /// The built-in binds: arrows or Ctrl-k / Ctrl-j to move, Ctrl-l /
    /// Ctrl-h for the ends, Enter to toggle a fold, Ctrl-p / Ctrl-n to
    /// expand or collapse everything.
    pub fn new_default() -> (r: ViewerKeybinds)
        ensures
            r.toggle.0@ == seq![
                crate::event::EventDef::Key(
                    KeyEventDef {
                        code: KeyCode::Enter,
                        modifiers: KeyModifiers { control: false, alt: false, shift: false },
                    },
                ),
            ],
    {
        ViewerKeybinds {
            up: EventDefSet::from_two_keys(
                KeyEventDef::new(KeyCode::Up, KeyModifiers::none()),
                KeyEventDef::new(KeyCode::Char('k'), KeyModifiers::control()),
            ),
            down: EventDefSet::from_two_keys(
                KeyEventDef::new(KeyCode::Down, KeyModifiers::none()),
                KeyEventDef::new(KeyCode::Char('j'), KeyModifiers::control()),
            ),
            move_to_head: EventDefSet::from_key(
                KeyEventDef::new(KeyCode::Char('l'), KeyModifiers::control()),
            ),
            move_to_tail: EventDefSet::from_key(
                KeyEventDef::new(KeyCode::Char('h'), KeyModifiers::control()),
            ),
            toggle: EventDefSet::from_key(KeyEventDef::new(KeyCode::Enter, KeyModifiers::none())),
            expand: EventDefSet::from_key(
                KeyEventDef::new(KeyCode::Char('p'), KeyModifiers::control()),
            ),
            collapse: EventDefSet::from_key(
                KeyEventDef::new(KeyCode::Char('n'), KeyModifiers::control()),
            ),
        }
    }
}

/// The operation an event asks for, binds tried in a fixed order; any other
/// event asks for nothing and leaves the view pane unchanged.
pub open spec fn viewer_op_spec(kb: ViewerKeybinds, e: Event) -> Option<ViewerOp> {
    if kb.up.matches_spec(e) {
        Some(ViewerOp::Up)
    } else if kb.down.matches_spec(e) {
        Some(ViewerOp::Down)
    } else if kb.move_to_head.matches_spec(e) {
        Some(ViewerOp::MoveToHead)
    } else if kb.move_to_tail.matches_spec(e) {
        Some(ViewerOp::MoveToTail)
    } else if kb.toggle.matches_spec(e) {
        Some(ViewerOp::Toggle)
    } else if kb.expand.matches_spec(e) {
        Some(ViewerOp::ExpandAll)
    } else if kb.collapse.matches_spec(e) {
        Some(ViewerOp::CollapseAll)
    } else {
        None
    }
}

/// Classifies one event against the viewer keybinds.
pub fn viewer_op_for_event(kb: &ViewerKeybinds, e: &Event) -> (r: Option<ViewerOp>)
    ensures
        r == viewer_op_spec(*kb, *e),
{
    if kb.up.matches(e) {
        Some(ViewerOp::Up)
    } else if kb.down.matches(e) {
        Some(ViewerOp::Down)
    } else if kb.move_to_head.matches(e) {
        Some(ViewerOp::MoveToHead)
    } else if kb.move_to_tail.matches(e) {
        Some(ViewerOp::MoveToTail)
    } else if kb.toggle.matches(e) {
        Some(ViewerOp::Toggle)
    } else if kb.expand.matches(e) {
        Some(ViewerOp::ExpandAll)
    } else if kb.collapse.matches(e) {
        Some(ViewerOp::CollapseAll)
    } else {
        None
    }
}

} // verus!
