//! The filter editor: a text buffer driven by keybinds, with a completion
//! sub-mode that browses the searcher's suggestion window.
//!
//! Dispatch happens in two steps: an event is first classified against the
//! keybind table, then the chosen action is applied.  While browsing
//! suggestions, the walk keys move through the window and any other event
//! leaves the sub-mode and is handled as an ordinary edit.

use vstd::prelude::*;

use crate::buffer::{next_break_idx, prev_break_idx, TextBuffer};
use crate::config::{Color, EditMode, EditorTheme, Keybinds};
use crate::event::{Event, KeyCode, KeyEventKind, Matcher};
use crate::render::Pane;
use crate::search::IncrementalSearcher;
use crate::strutil::{dec_str, is_prefix, usize_to_string};

verus! {

/// What an event asks of the editor while editing.
#[derive(Clone, Copy, PartialEq, Eq, Structural, Debug)]
pub enum EditorAction {
    Completion,
    Backward,
    Forward,
    MoveToHead,
    MoveToTail,
    MoveToPrevNearest,
    MoveToNextNearest,
    Erase,
    EraseAll,
    EraseToPrevNearest,
    EraseToNextNearest,
    Input(char),
    Noop,
}

/// What an event asks of the editor while browsing suggestions.
#[derive(Clone, Copy, PartialEq, Eq, Structural, Debug)]
pub enum SearchAction {
    Down,
    Up,
    Other,
}

/// Modifiers under which a typed character is inserted: none, or shift only.
pub open spec fn input_modifiers(m: crate::event::KeyModifiers) -> bool {
    !m.control && !m.alt
}

/// The action an event triggers while editing, keybinds tried in a fixed
/// order, with a bare printable key falling through to text input.
pub open spec fn classify_edit_spec(kb: Keybinds, e: Event) -> EditorAction {
    if kb.completion.matches_spec(e) {
        EditorAction::Completion
    } else if kb.backward.matches_spec(e) {
        EditorAction::Backward
    } else if kb.forward.matches_spec(e) {
        EditorAction::Forward
    } else if kb.move_to_head.matches_spec(e) {
        EditorAction::MoveToHead
    } else if kb.move_to_tail.matches_spec(e) {
        EditorAction::MoveToTail
    } else if kb.move_to_previous_nearest.matches_spec(e) {
        EditorAction::MoveToPrevNearest
    } else if kb.move_to_next_nearest.matches_spec(e) {
        EditorAction::MoveToNextNearest
    } else if kb.erase.matches_spec(e) {
        EditorAction::Erase
    } else if kb.erase_all.matches_spec(e) {
        EditorAction::EraseAll
    } else if kb.erase_to_previous_nearest.matches_spec(e) {
        EditorAction::EraseToPrevNearest
    } else if kb.erase_to_next_nearest.matches_spec(e) {
        EditorAction::EraseToNextNearest
    } else {
        match e {
            Event::Key(ke) => {
                if ke.kind == KeyEventKind::Press && input_modifiers(ke.modifiers) {
                    match ke.code {
                        KeyCode::Char(c) => EditorAction::Input(c),
                        _ => EditorAction::Noop,
                    }
                } else {
                    EditorAction::Noop
                }
            },
            _ => EditorAction::Noop,
        }
    }
}

/// The action an event triggers while browsing suggestions.
pub open spec fn classify_search_spec(kb: Keybinds, e: Event) -> SearchAction {
    if kb.search_down.matches_spec(e) {
        SearchAction::Down
    } else if kb.search_up.matches_spec(e) {
        SearchAction::Up
    } else {
        SearchAction::Other
    }
}

/// Classifies an event against the keybind table for the editing mode.
pub fn classify_edit_event(kb: &Keybinds, e: &Event) -> (r: EditorAction)
    ensures
        r == classify_edit_spec(*kb, *e),
{
    if kb.completion.matches(e) {
        EditorAction::Completion
    } else if kb.backward.matches(e) {
        EditorAction::Backward
    } else if kb.forward.matches(e) {
        EditorAction::Forward
    } else if kb.move_to_head.matches(e) {
        EditorAction::MoveToHead
    } else if kb.move_to_tail.matches(e) {
        EditorAction::MoveToTail
    } else if kb.move_to_previous_nearest.matches(e) {
        EditorAction::MoveToPrevNearest
    } else if kb.move_to_next_nearest.matches(e) {
        EditorAction::MoveToNextNearest
    } else if kb.erase.matches(e) {
        EditorAction::Erase
    } else if kb.erase_all.matches(e) {
        EditorAction::EraseAll
    } else if kb.erase_to_previous_nearest.matches(e) {
        EditorAction::EraseToPrevNearest
    } else if kb.erase_to_next_nearest.matches(e) {
        EditorAction::EraseToNextNearest
    } else {
        match e {
            Event::Key(ke) => {
                if matches!(ke.kind, KeyEventKind::Press) && !ke.modifiers.control
                    && !ke.modifiers.alt {
                    match ke.code {
                        KeyCode::Char(c) => EditorAction::Input(c),
                        _ => EditorAction::Noop,
                    }
                } else {
                    EditorAction::Noop
                }
            },
            _ => EditorAction::Noop,
        }
    }
}

/// Classifies an event against the keybind table for the browsing mode.
pub fn classify_search_event(kb: &Keybinds, e: &Event) -> (r: SearchAction)
    ensures
        r == classify_search_spec(*kb, *e),
{
    if kb.search_down.matches(e) {
        SearchAction::Down
    } else if kb.search_up.matches(e) {
        SearchAction::Up
    } else {
        SearchAction::Other
    }
}

/// The buffer after one editing action that touches only the buffer:
/// content and cursor.
pub open spec fn edit_model(
    chars: Seq<char>,
    pos: int,
    mode: EditMode,
    breaks: Seq<char>,
    a: EditorAction,
) -> (Seq<char>, int) {
    let len = chars.len() as int;
    match a {
        EditorAction::Backward => (chars, if pos > 0 { pos - 1 } else { 0 }),
        EditorAction::Forward => (chars, if pos < len { pos + 1 } else { pos }),
        EditorAction::MoveToHead => (chars, 0),
        EditorAction::MoveToTail => (chars, len),
        EditorAction::MoveToPrevNearest => (chars, prev_break_idx(chars, breaks, pos)),
        EditorAction::MoveToNextNearest => (chars, next_break_idx(chars, breaks, pos)),
        EditorAction::Erase => if pos > 0 {
            (chars.remove(pos - 1), pos - 1)
        } else {
            (chars, pos)
        },
        EditorAction::EraseAll => (Seq::empty(), 0),
        EditorAction::EraseToPrevNearest => {
            let i = prev_break_idx(chars, breaks, pos);
            (chars.subrange(0, i) + chars.subrange(pos, len), i)
        },
        EditorAction::EraseToNextNearest => {
            let i = next_break_idx(chars, breaks, pos);
            (chars.subrange(0, pos) + chars.subrange(i, len), pos)
        },
        EditorAction::Input(c) => match mode {
            EditMode::Insert => (chars.insert(pos, c), pos + 1),
            EditMode::Overwrite => if pos == len {
                (chars.insert(pos, c), pos + 1)
            } else {
                (chars.update(pos, c), pos + 1)
            },
        },
        EditorAction::Completion => (chars, pos),
        EditorAction::Noop => (chars, pos),
    }
}

/// The hint shown when completion found suggestions.
pub open spec fn loaded_msg(loaded: bool, n: int) -> Seq<char> {
    (if loaded {
        "Loaded all ("@
    } else {
        "Loaded partially ("@
    }) + dec_str(n) + ") suggestions"@
}

/// The hint shown when completion found nothing for the typed prefix.
pub open spec fn no_suggestion_msg(prefix: Seq<char>) -> Seq<char> {
    "No suggestion found for '"@ + prefix + "'"@
}

/// What one editing-mode dispatch guarantees: every action but completion
/// touches only the buffer, as `edit_model` says, and clears the hint;
/// completion either enters browsing on the first match or leaves a
/// no-suggestion hint and everything else untouched.
pub open spec fn edit_outcome(pre: Editor, post: Editor, event: Event) -> bool {
    &&& post.wf()
    &&& post.mode == pre.mode
    &&& post.keybinds == pre.keybinds
    &&& post.focused == pre.focused
    &&& post.word_break_chars == pre.word_break_chars
    &&& post.searcher.items == pre.searcher.items
    &&& post.searcher.load_state == pre.searcher.load_state
    &&& ({
        let a = classify_edit_spec(pre.keybinds, event);
        if a != EditorAction::Completion {
            &&& (post.buffer.chars@, post.buffer.pos as int) == edit_model(
                pre.buffer.chars@,
                pre.buffer.pos as int,
                pre.mode,
                pre.word_break_chars@,
                a,
            )
            &&& post.guide_text@.len() == 0
            &&& post.browsing == pre.browsing
            &&& post.searcher == pre.searcher
        } else {
            let prefix = pre.buffer.chars@;
            if post.browsing {
                let ms = crate::search::matching_items(pre.searcher.items@, prefix);
                let t: int = if pre.searcher.search_result_chunk_size == 0 {
                    1
                } else if pre.searcher.search_result_chunk_size <= ms.len() {
                    pre.searcher.search_result_chunk_size as int
                } else {
                    ms.len() as int
                };
                &&& ms.len() > 0
                &&& post.searcher.window@ == ms.subrange(0, t)
                &&& post.searcher.search_chunk_remaining@ == ms.subrange(t, ms.len() as int)
                &&& post.searcher.cursor == 0
                &&& post.buffer.chars@ == ms[0]@
                &&& is_prefix(prefix, post.buffer.chars@)
                &&& post.guide_text@ == loaded_msg(
                    pre.searcher.load_state.loaded,
                    pre.searcher.load_state.loaded_item_len as int,
                )
                &&& post.guide_color == Some(Color::Green)
            } else {
                &&& crate::search::matching_items(pre.searcher.items@, prefix).len() == 0
                &&& post.buffer == pre.buffer
                &&& post.searcher.window == pre.searcher.window
                &&& post.searcher.cursor == pre.searcher.cursor
                &&& post.searcher.search_chunk_remaining == pre.searcher.search_chunk_remaining
                &&& post.guide_text@ == no_suggestion_msg(prefix)
                &&& post.guide_color == Some(Color::Yellow)
                &&& post.browsing == pre.browsing
            }
        }
    })
}

/// What one browsing-mode dispatch guarantees: the walk keys keep browsing
/// and put the selected suggestion in the buffer; any other event empties
/// the window and behaves as an ordinary edit would.
pub open spec fn search_outcome(pre: Editor, post: Editor, event: Event) -> bool {
    &&& post.wf()
    &&& post.mode == pre.mode
    &&& post.keybinds == pre.keybinds
    &&& post.focused == pre.focused
    &&& post.searcher.items == pre.searcher.items
    &&& post.searcher.load_state == pre.searcher.load_state
    &&& match classify_search_spec(pre.keybinds, event) {
        SearchAction::Down => {
            &&& post.browsing == pre.browsing
            &&& post.guide_text == pre.guide_text
            &&& (
            post.searcher.window@,
            post.searcher.search_chunk_remaining@,
            post.searcher.cursor as int,
            ) == pre.searcher.down_with_load_model()
            &&& (post.searcher.window@.len() > 0 ==> post.buffer.chars@
                == post.searcher.window@[post.searcher.cursor as int]@)
            &&& (post.searcher.window@.len() == 0 ==> post.buffer.chars@.len() == 0)
            &&& post.buffer.pos == post.buffer.chars@.len()
        },
        SearchAction::Up => {
            &&& post.browsing == pre.browsing
            &&& post.guide_text == pre.guide_text
            &&& post.searcher.window == pre.searcher.window
            &&& post.searcher.search_chunk_remaining == pre.searcher.search_chunk_remaining
            &&& (pre.searcher.cursor > 0 ==> post.searcher.cursor == pre.searcher.cursor - 1)
            &&& (pre.searcher.cursor == 0 ==> post.searcher.cursor == 0)
            &&& (post.searcher.window@.len() > 0 ==> post.buffer.chars@
                == post.searcher.window@[post.searcher.cursor as int]@)
            &&& (post.searcher.window@.len() == 0 ==> post.buffer.chars@.len() == 0)
            &&& post.buffer.pos == post.buffer.chars@.len()
        },
        SearchAction::Other => {
            let a = classify_edit_spec(pre.keybinds, event);
            if a != EditorAction::Completion {
                &&& post.browsing == false
                &&& post.searcher.window@.len() == 0
                &&& post.searcher.search_chunk_remaining@.len() == 0
                &&& (post.buffer.chars@, post.buffer.pos as int) == edit_model(
                    pre.buffer.chars@,
                    pre.buffer.pos as int,
                    pre.mode,
                    pre.word_break_chars@,
                    a,
                )
                &&& post.guide_text@.len() == 0
            } else {
                let prefix = pre.buffer.chars@;
                if post.browsing {
                    let ms = crate::search::matching_items(pre.searcher.items@, prefix);
                    &&& ms.len() > 0
                    &&& post.searcher.window@.len() > 0
                    &&& post.searcher.cursor == 0
                    &&& post.buffer.chars@ == ms[0]@
                    &&& is_prefix(prefix, post.buffer.chars@)
                } else {
                    &&& crate::search::matching_items(pre.searcher.items@, prefix).len() == 0
                    &&& post.buffer.chars@ == pre.buffer.chars@
                    &&& post.searcher.window@.len() == 0
                    &&& post.searcher.search_chunk_remaining@.len() == 0
                    &&& post.guide_text@ == no_suggestion_msg(prefix)
                }
            }
        },
    }
}

/// The filter editor with its searcher and its current hint line.
pub struct Editor {
    pub buffer: TextBuffer,
    pub mode: EditMode,
    pub word_break_chars: Vec<char>,
    pub focus_theme: EditorTheme,
    pub defocus_theme: EditorTheme,
    pub focused: bool,
    pub guide_text: String,
    pub guide_color: Option<Color>,
    pub searcher: IncrementalSearcher,
    pub keybinds: Keybinds,
    pub browsing: bool,
}

impl Editor {
    pub open spec fn wf(self) -> bool {
        &&& self.buffer.wf()
        &&& self.searcher.wf()
    }

    pub fn new(
        mode: EditMode,
        word_break_chars: Vec<char>,
        focus_theme: EditorTheme,
        defocus_theme: EditorTheme,
        keybinds: Keybinds,
        searcher: IncrementalSearcher,
    ) -> (r: Editor)
        requires
            searcher.wf(),
        ensures
            r.wf(),
            r.buffer.chars@.len() == 0,
            r.buffer.pos == 0,
            r.mode == mode,
            r.word_break_chars == word_break_chars,
            r.focused == true,
            r.browsing == false,
            r.guide_text@.len() == 0,
            r.searcher == searcher,
            r.keybinds == keybinds,
    {
        Editor {
            buffer: TextBuffer::new(),
            mode,
            word_break_chars,
            focus_theme,
            defocus_theme,
            focused: true,
            guide_text: String::new(),
            guide_color: None,
            searcher,
            keybinds,
            browsing: false,
        }
    }

    /// The current query text, without the cursor.
    pub fn text(&self) -> (r: String)
        ensures
            r@ == self.buffer.chars@,
    {
        self.buffer.text()
    }

    /// Shows the focused theme.
    pub fn focus(&mut self)
        ensures
            *final(self) == (Editor { focused: true, ..*old(self) }),
    {
        self.focused = true;
    }

    /// Shows the defocused theme, leaves the completion sub-mode and drops
    /// the hint.
    pub fn defocus(&mut self)
        requires
            old(self).wf(),
        ensures
            final(self).wf(),
            final(self).focused == false,
            final(self).browsing == false,
            final(self).guide_text@.len() == 0,
            final(self).searcher.window@.len() == 0,
            final(self).searcher.search_chunk_remaining@.len() == 0,
            final(self).searcher.items == old(self).searcher.items,
            final(self).searcher.load_state == old(self).searcher.load_state,
            final(self).buffer == old(self).buffer,
            final(self).keybinds == old(self).keybinds,
            final(self).mode == old(self).mode,
    {
        self.focused = false;
        self.searcher.leave_search();
        self.browsing = false;
        self.guide_text = String::new();
        self.guide_color = None;
    }

    /// Handles one event in editing mode.
    ///
    /// Every action but completion touches only the buffer, as `edit_model`
    /// says, and clears the hint.  Completion asks the searcher for the
    /// items starting with the current text: with a first match the buffer
    /// is replaced by it and browsing begins; with none a hint says so and
    /// nothing else changes.
    pub fn edit(&mut self, event: &Event)
        requires
            old(self).wf(),
            old(self).browsing == false,
            old(self).buffer.chars@.len() < usize::MAX,
        ensures
            edit_outcome(*old(self), *final(self), *event),
    {
        self.guide_text = String::new();
        self.guide_color = None;
        let action = classify_edit_event(&self.keybinds, event);
        match action {
            EditorAction::Completion => {
                let prefix = self.buffer.text();
                let result = self.searcher.start_search(prefix.as_str());
                match result.head_item {
                    Some(head) => {
                        let loaded = result.load_state.loaded;
                        let count = result.load_state.loaded_item_len;
                        let lead = if loaded {
                            String::from_str("Loaded all (")
                        } else {
                            String::from_str("Loaded partially (")
                        };
                        let msg = lead.concat(usize_to_string(count).as_str()).concat(
                            ") suggestions",
                        );
                        self.guide_text = msg;
                        self.guide_color = Some(Color::Green);
                        self.buffer.replace(head.as_str());
                        self.browsing = true;
                    },
                    None => {
                        let msg = String::from_str("No suggestion found for '").concat(
                            prefix.as_str(),
                        ).concat("'");
                        self.guide_text = msg;
                        self.guide_color = Some(Color::Yellow);
                    },
                }
            },
            EditorAction::Backward => {
                self.buffer.backward();
            },
            EditorAction::Forward => {
                self.buffer.forward();
            },
            EditorAction::MoveToHead => {
                self.buffer.move_to_head();
            },
            EditorAction::MoveToTail => {
                self.buffer.move_to_tail();
            },
            EditorAction::MoveToPrevNearest => {
                self.buffer.move_to_previous_nearest(&self.word_break_chars);
            },
            EditorAction::MoveToNextNearest => {
                self.buffer.move_to_next_nearest(&self.word_break_chars);
            },
            EditorAction::Erase => {
                self.buffer.erase();
            },
            EditorAction::EraseAll => {
                self.buffer.erase_all();
            },
            EditorAction::EraseToPrevNearest => {
                self.buffer.erase_to_previous_nearest(&self.word_break_chars);
            },
            EditorAction::EraseToNextNearest => {
                self.buffer.erase_to_next_nearest(&self.word_break_chars);
            },
            EditorAction::Input(c) => {
                match self.mode {
                    EditMode::Insert => {
                        self.buffer.insert(c);
                    },
                    EditMode::Overwrite => {
                        self.buffer.overwrite(c);
                    },
                }
            },
            EditorAction::Noop => {},
        }
        proof {
            let a = classify_edit_spec(old(self).keybinds, *event);
            if a != EditorAction::Completion {
                assert((self.buffer.chars@, self.buffer.pos as int) == edit_model(
                    old(self).buffer.chars@,
                    old(self).buffer.pos as int,
                    old(self).mode,
                    old(self).word_break_chars@,
                    a,
                ));
            }
            assert(edit_outcome(*old(self), *self, *event));
        }
    }

    /// Handles one event in the browsing sub-mode: the walk keys move the
    /// suggestion cursor and copy the selected item into the buffer; any
    /// other event leaves the sub-mode and is handled as an ordinary edit.
    pub fn search(&mut self, event: &Event)
        requires
            old(self).wf(),
            old(self).buffer.chars@.len() < usize::MAX,
            old(self).searcher.window@.len() + old(self).searcher.search_chunk_remaining@.len()
                <= usize::MAX,
        ensures
            search_outcome(*old(self), *final(self), *event),
    {
        let action = classify_search_event(&self.keybinds, event);
        match action {
            SearchAction::Down => {
                self.searcher.down_with_load();
                let item = self.searcher.get_current_item();
                self.buffer.replace(item.as_str());
            },
            SearchAction::Up => {
                self.searcher.up();
                let item = self.searcher.get_current_item();
                self.buffer.replace(item.as_str());
            },
            SearchAction::Other => {
                self.searcher.leave_search();
                self.browsing = false;
                self.edit(event);
            },
        }
    }

    /// Handles one event: browsing mode walks suggestions, editing mode
    /// edits the buffer.
    pub fn operate(&mut self, event: &Event)
        requires
            old(self).wf(),
            old(self).buffer.chars@.len() < usize::MAX,
            old(self).searcher.window@.len() + old(self).searcher.search_chunk_remaining@.len()
                <= usize::MAX,
        ensures
            old(self).browsing ==> search_outcome(*old(self), *final(self), *event),
            !old(self).browsing ==> edit_outcome(*old(self), *final(self), *event),
    {
        if self.browsing {
            self.search(event);
        } else {
            self.edit(event);
        }
    }

    /// The editor line as a pane: the active theme's prefix, then the text.
    pub fn create_editor_pane(&self) -> (r: Pane)
        ensures
            r.rows@.len() == 1,
            self.focused ==> r.rows@[0]@ == self.focus_theme.prefix@ + self.buffer.chars@,
            !self.focused ==> r.rows@[0]@ == self.defocus_theme.prefix@ + self.buffer.chars@,
    {
        let prefix = if self.focused {
            self.focus_theme.prefix.clone()
        } else {
            self.defocus_theme.prefix.clone()
        };
        let text = self.buffer.text();
        let row = prefix.concat(text.as_str());
        let mut rows: Vec<String> = Vec::new();
        rows.push(row);
        Pane { rows }
    }

    /// The hint line as a pane: empty when there is no hint.
    pub fn create_guide_pane(&self) -> (r: Pane)
        ensures
            self.guide_text@.len() == 0 ==> r.rows@.len() == 0,
            self.guide_text@.len() > 0 ==> r.rows@.len() == 1 && r.rows@[0]@
                == self.guide_text@,
    {
        let mut rows: Vec<String> = Vec::new();
        if self.guide_text.as_str().unicode_len() > 0 {
            rows.push(self.guide_text.clone());
        }
        Pane { rows }
    }

    /// The visible suggestions as a pane: at most the configured number of
    /// lines, starting at the suggestion cursor.
    pub fn create_searcher_pane(&self) -> (r: Pane)
        requires
            self.wf(),
        ensures
            r.rows@.len() <= self.searcher.window@.len(),
            forall|i: int|
                0 <= i < r.rows@.len() ==> r.rows@[i] == self.searcher.window@[
                    self.searcher.cursor + i
                ],
    {
        self.searcher.create_pane()
    }
}

} // verus!
