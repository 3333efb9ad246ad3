//! The top-level event router: global shortcuts first, then the focused
//! component.
//!
//! Copying the view and switching focus are allowed only while the
//! evaluator is idle; while it is busy those requests turn into a transient
//! hint and change nothing else.

use vstd::prelude::*;

use crate::context::Phase;
use crate::event::{Event, KeyCode, KeyEventKind};

verus! {

/// Which component receives ordinary events.
#[derive(Clone, Copy, PartialEq, Eq, Structural, Debug)]
pub enum Focus {
    Editor,
    Processor,
}

/// What the event loop should do with one terminal event.
#[derive(Clone, Copy, PartialEq, Eq, Structural, Debug)]
pub enum RouterAction {
    /// Hand the new size to the resize debouncer.
    DebounceResize(u16, u16),
    /// Leave the loop and shut down.
    Quit,
    /// Copy the editor text to the clipboard.
    CopyEditor,
    /// Copy the view content to the clipboard.
    CopyViewer,
    /// Refuse the copy and show a transient hint instead.
    DenyCopy,
    /// Give focus to the named component.
    SwitchFocus(Focus),
    /// Refuse the focus switch and show a transient hint instead.
    DenyFocusSwitch,
    /// Forward the event to the editor.
    ForwardToEditor(Event),
    /// Forward the event to the viewer.
    ForwardToViewer(Event),
}

/// A plain key press without modifiers beyond the given control flag.
pub open spec fn is_ctrl_press(e: Event, c: char) -> bool {
    match e {
        Event::Key(ke) => ke.code == KeyCode::Char(c) && ke.modifiers.control
            && !ke.modifiers.alt && !ke.modifiers.shift && ke.kind == KeyEventKind::Press,
        _ => false,
    }
}

/// A shift-up or shift-down press, the focus-switch chord.
pub open spec fn is_focus_switch(e: Event) -> bool {
    match e {
        Event::Key(ke) => (ke.code == KeyCode::Up || ke.code == KeyCode::Down)
            && ke.modifiers.shift && !ke.modifiers.control && !ke.modifiers.alt && ke.kind
            == KeyEventKind::Press,
        _ => false,
    }
}

/// What the router decides for one event.
pub open spec fn route_spec(focus: Focus, phase: Phase, e: Event) -> RouterAction {
    match e {
        Event::Resize(w, h) => RouterAction::DebounceResize(w, h),
        _ => {
            if is_ctrl_press(e, 'c') {
                RouterAction::Quit
            } else if is_ctrl_press(e, 'q') {
                RouterAction::CopyEditor
            } else if is_ctrl_press(e, 'o') {
                if phase == Phase::Idle {
                    RouterAction::CopyViewer
                } else {
                    RouterAction::DenyCopy
                }
            } else if is_focus_switch(e) {
                if phase == Phase::Idle {
                    match focus {
                        Focus::Editor => RouterAction::SwitchFocus(Focus::Processor),
                        Focus::Processor => RouterAction::SwitchFocus(Focus::Editor),
                    }
                } else {
                    RouterAction::DenyFocusSwitch
                }
            } else {
                match focus {
                    Focus::Editor => RouterAction::ForwardToEditor(e),
                    Focus::Processor => RouterAction::ForwardToViewer(e),
                }
            }
        },
    }
}

/// Routes one event.  While the evaluator is busy, a copy request and a
/// focus switch are both refused: no pane beyond the transient hint
/// changes, and nothing reaches the clipboard.
pub fn route_event(focus: Focus, phase: Phase, e: &Event) -> (r: RouterAction)
    ensures
        r == route_spec(focus, phase, *e),
        phase != Phase::Idle ==> r != RouterAction::CopyViewer,
        phase != Phase::Idle ==> !(r matches RouterAction::SwitchFocus(_)),
{
    match e {
        Event::Resize(w, h) => RouterAction::DebounceResize(*w, *h),
        Event::Key(ke) => {
            let ctrl_plain = ke.modifiers.control && !ke.modifiers.alt && !ke.modifiers.shift
                && matches!(ke.kind, KeyEventKind::Press);
            let shift_plain = ke.modifiers.shift && !ke.modifiers.control && !ke.modifiers.alt
                && matches!(ke.kind, KeyEventKind::Press);
            if ctrl_plain && matches!(ke.code, KeyCode::Char('c')) {
                RouterAction::Quit
            } else if ctrl_plain && matches!(ke.code, KeyCode::Char('q')) {
                RouterAction::CopyEditor
            } else if ctrl_plain && matches!(ke.code, KeyCode::Char('o')) {
                if matches!(phase, Phase::Idle) {
                    RouterAction::CopyViewer
                } else {
                    RouterAction::DenyCopy
                }
            } else if shift_plain && (matches!(ke.code, KeyCode::Up) || matches!(
                ke.code,
                KeyCode::Down,
            )) {
                if matches!(phase, Phase::Idle) {
                    match focus {
                        Focus::Editor => RouterAction::SwitchFocus(Focus::Processor),
                        Focus::Processor => RouterAction::SwitchFocus(Focus::Editor),
                    }
                } else {
                    RouterAction::DenyFocusSwitch
                }
            } else {
                match focus {
                    Focus::Editor => RouterAction::ForwardToEditor(*e),
                    Focus::Processor => RouterAction::ForwardToViewer(*e),
                }
            }
        },
        Event::Mouse(_) => {
            match focus {
                Focus::Editor => RouterAction::ForwardToEditor(*e),
                Focus::Processor => RouterAction::ForwardToViewer(*e),
            }
        },
    }
}

} // verus!
