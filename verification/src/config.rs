//! Configuration: durations, styles, sizes and keybinds, read-only to the
//! rest of the crate.  Every field has a built-in default; loading a
//! configuration file and merging it over these defaults happens outside.

use vstd::prelude::*;

use crate::event::{EventDefSet, KeyCode, KeyEventDef, KeyModifiers};

verus! {

/// A terminal colour, by name.
#[derive(Clone, Copy, PartialEq, Eq, Structural, Debug)]
pub enum Color {
    Black,
    Blue,
    Cyan,
    DarkGrey,
    Green,
    Grey,
    Magenta,
    Red,
    White,
    Yellow,
}

/// How a run of content is painted.
#[derive(Clone, Copy, PartialEq, Eq, Structural, Debug)]
pub struct ContentStyle {
    pub foreground: Option<Color>,
    pub background: Option<Color>,
    pub bold: bool,
    pub dim: bool,
}

impl ContentStyle {
    pub fn plain() -> (r: ContentStyle)
        ensures
            r == (ContentStyle { foreground: None, background: None, bold: false, dim: false }),
    {
        ContentStyle { foreground: None, background: None, bold: false, dim: false }
    }
}

/// Whether typing inserts or overwrites at the cursor.
#[derive(Clone, Copy, PartialEq, Eq, Structural, Debug)]
pub enum EditMode {
    Insert,
    Overwrite,
}

/// The editor's look in one focus state.
#[derive(Clone, PartialEq, Eq, Debug)]
pub struct EditorTheme {
    pub prefix: String,
    pub prefix_style: ContentStyle,
    pub active_char_style: ContentStyle,
    pub inactive_char_style: ContentStyle,
}

/// Editor behaviour: themes, edit mode and word boundaries.
pub struct EditorConfig {
    pub theme_on_focus: EditorTheme,
    pub theme_on_defocus: EditorTheme,
    pub mode: EditMode,
    pub word_break_chars: Vec<char>,
}

/// Colours and indent of the rendered JSON tree.
pub struct JsonTheme {
    pub indent: usize,
    pub curly_brackets_style: ContentStyle,
    pub square_brackets_style: ContentStyle,
    pub key_style: ContentStyle,
    pub string_value_style: ContentStyle,
    pub number_value_style: ContentStyle,
    pub boolean_value_style: ContentStyle,
    pub null_value_style: ContentStyle,
}

/// JSON viewer limits and theme.
pub struct JsonConfig {
    pub max_streams: Option<usize>,
    pub theme: JsonTheme,
}

/// Suggestion-list behaviour and look.
pub struct CompletionConfig {
    pub lines: Option<usize>,
    pub cursor: String,
    pub search_result_chunk_size: usize,
    pub search_load_chunk_size: usize,
    pub active_item_style: ContentStyle,
    pub inactive_item_style: ContentStyle,
}

/// One set of event shapes per editor action.
pub struct Keybinds {
    pub move_to_tail: EventDefSet,
    pub backward: EventDefSet,
    pub forward: EventDefSet,
    pub completion: EventDefSet,
    pub move_to_head: EventDefSet,
    pub move_to_previous_nearest: EventDefSet,
    pub move_to_next_nearest: EventDefSet,
    pub erase: EventDefSet,
    pub erase_all: EventDefSet,
    pub erase_to_previous_nearest: EventDefSet,
    pub erase_to_next_nearest: EventDefSet,
    pub search_up: EventDefSet,
    pub search_down: EventDefSet,
}

impl Keybinds {
    /// The built-in binds: readline-style motions, Tab for completion, and
    /// Tab or Down / Up to walk the suggestion list.
    pub fn new_default() -> (r: Keybinds)
        ensures
            r.move_to_tail.0@ == seq![
                crate::event::EventDef::Key(
                    KeyEventDef {
                        code: KeyCode::Char('e'),
                        modifiers: KeyModifiers { control: true, alt: false, shift: false },
                    },
                ),
            ],
            r.move_to_head.0@ == seq![
                crate::event::EventDef::Key(
                    KeyEventDef {
                        code: KeyCode::Char('a'),
                        modifiers: KeyModifiers { control: true, alt: false, shift: false },
                    },
                ),
            ],
            r.backward.0@ == seq![
                crate::event::EventDef::Key(
                    KeyEventDef {
                        code: KeyCode::Left,
                        modifiers: KeyModifiers { control: false, alt: false, shift: false },
                    },
                ),
            ],
            r.forward.0@ == seq![
                crate::event::EventDef::Key(
                    KeyEventDef {
                        code: KeyCode::Right,
                        modifiers: KeyModifiers { control: false, alt: false, shift: false },
                    },
                ),
            ],
            r.completion.0@ == seq![
                crate::event::EventDef::Key(
                    KeyEventDef {
                        code: KeyCode::Tab,
                        modifiers: KeyModifiers { control: false, alt: false, shift: false },
                    },
                ),
            ],
            r.move_to_next_nearest.0@ == seq![
                crate::event::EventDef::Key(
                    KeyEventDef {
                        code: KeyCode::Char('f'),
                        modifiers: KeyModifiers { control: false, alt: true, shift: false },
                    },
                ),
            ],
            r.move_to_previous_nearest.0@ == seq![
                crate::event::EventDef::Key(
                    KeyEventDef {
                        code: KeyCode::Char('b'),
                        modifiers: KeyModifiers { control: false, alt: true, shift: false },
                    },
                ),
            ],
            r.erase.0@ == seq![
                crate::event::EventDef::Key(
                    KeyEventDef {
                        code: KeyCode::Backspace,
                        modifiers: KeyModifiers { control: false, alt: false, shift: false },
                    },
                ),
            ],
            r.erase_all.0@ == seq![
                crate::event::EventDef::Key(
                    KeyEventDef {
                        code: KeyCode::Char('u'),
                        modifiers: KeyModifiers { control: true, alt: false, shift: false },
                    },
                ),
            ],
            r.erase_to_previous_nearest.0@ == seq![
                crate::event::EventDef::Key(
                    KeyEventDef {
                        code: KeyCode::Char('w'),
                        modifiers: KeyModifiers { control: true, alt: false, shift: false },
                    },
                ),
            ],
            r.erase_to_next_nearest.0@ == seq![
                crate::event::EventDef::Key(
                    KeyEventDef {
                        code: KeyCode::Char('d'),
                        modifiers: KeyModifiers { control: false, alt: true, shift: false },
                    },
                ),
            ],
            r.search_up.0@ == seq![
                crate::event::EventDef::Key(
                    KeyEventDef {
                        code: KeyCode::Up,
                        modifiers: KeyModifiers { control: false, alt: false, shift: false },
                    },
                ),
            ],
            r.search_down.0@ == seq![
                crate::event::EventDef::Key(
                    KeyEventDef {
                        code: KeyCode::Tab,
                        modifiers: KeyModifiers { control: false, alt: false, shift: false },
                    },
                ),
                crate::event::EventDef::Key(
                    KeyEventDef {
                        code: KeyCode::Down,
                        modifiers: KeyModifiers { control: false, alt: false, shift: false },
                    },
                ),
            ],
    {
        Keybinds {
            move_to_tail: EventDefSet::from_key(
                KeyEventDef::new(KeyCode::Char('e'), KeyModifiers::control()),
            ),
            move_to_head: EventDefSet::from_key(
                KeyEventDef::new(KeyCode::Char('a'), KeyModifiers::control()),
            ),
            backward: EventDefSet::from_key(KeyEventDef::new(KeyCode::Left, KeyModifiers::none())),
            forward: EventDefSet::from_key(KeyEventDef::new(KeyCode::Right, KeyModifiers::none())),
            completion: EventDefSet::from_key(KeyEventDef::new(KeyCode::Tab, KeyModifiers::none())),
            move_to_next_nearest: EventDefSet::from_key(
                KeyEventDef::new(KeyCode::Char('f'), KeyModifiers::alt()),
            ),
            move_to_previous_nearest: EventDefSet::from_key(
                KeyEventDef::new(KeyCode::Char('b'), KeyModifiers::alt()),
            ),
            erase: EventDefSet::from_key(KeyEventDef::new(KeyCode::Backspace, KeyModifiers::none())),
            erase_all: EventDefSet::from_key(
                KeyEventDef::new(KeyCode::Char('u'), KeyModifiers::control()),
            ),
            erase_to_previous_nearest: EventDefSet::from_key(
                KeyEventDef::new(KeyCode::Char('w'), KeyModifiers::control()),
            ),
            erase_to_next_nearest: EventDefSet::from_key(
                KeyEventDef::new(KeyCode::Char('d'), KeyModifiers::alt()),
            ),
            search_up: EventDefSet::from_key(KeyEventDef::new(KeyCode::Up, KeyModifiers::none())),
            search_down: EventDefSet::from_two_keys(
                KeyEventDef::new(KeyCode::Tab, KeyModifiers::none()),
                KeyEventDef::new(KeyCode::Down, KeyModifiers::none()),
            ),
        }
    }
}

/// The command line: an optional input file (standard input when absent or
/// `-`) and an optional configuration file path.  Parsing the real command
/// line happens outside; this is the parsed shape.
pub struct Args {
    pub input: Option<String>,
    pub config_file: Option<String>,
}

/// Everything the tool can be configured with.
pub struct Config {
    pub query_debounce_duration_ms: u64,
    pub resize_debounce_duration_ms: u64,
    pub spin_duration_ms: u64,
    pub no_hint: bool,
    pub editor: EditorConfig,
    pub json: JsonConfig,
    pub completion: CompletionConfig,
    pub keybinds: Keybinds,
}

impl Config {
    /// The built-in defaults: 600 ms query debounce, 200 ms resize debounce,
    /// 300 ms spinner tick, insert mode, filter punctuation as word breaks,
    /// three suggestion lines, and chunk sizes of 100 shown / 50000 loaded.
    pub fn new_default() -> (r: Config)
        ensures
            r.query_debounce_duration_ms == 600,
            r.resize_debounce_duration_ms == 200,
            r.spin_duration_ms == 300,
            r.no_hint == false,
            r.editor.mode == EditMode::Insert,
            r.editor.word_break_chars@ == seq!['.', '|', '(', ')', '[', ']'],
            r.json.max_streams is None,
            r.json.theme.indent == 2,
            r.completion.lines == Some(3usize),
            r.completion.search_result_chunk_size == 100,
            r.completion.search_load_chunk_size == 50000,
    {
        let mut word_break_chars: Vec<char> = Vec::new();
        word_break_chars.push('.');
        word_break_chars.push('|');
        word_break_chars.push('(');
        word_break_chars.push(')');
        word_break_chars.push('[');
        word_break_chars.push(']');
        proof {
            assert(word_break_chars@ =~= seq!['.', '|', '(', ')', '[', ']']);
        }
        let bold = ContentStyle { foreground: None, background: None, bold: true, dim: false };
        let dim = ContentStyle { foreground: None, background: None, bold: false, dim: true };
        Config {
            query_debounce_duration_ms: 600,
            resize_debounce_duration_ms: 200,
            spin_duration_ms: 300,
            no_hint: false,
            editor: EditorConfig {
                theme_on_focus: EditorTheme {
                    prefix: String::from_str("> "),
                    prefix_style: ContentStyle {
                        foreground: Some(Color::Blue),
                        background: None,
                        bold: false,
                        dim: false,
                    },
                    active_char_style: ContentStyle {
                        foreground: None,
                        background: Some(Color::Magenta),
                        bold: false,
                        dim: false,
                    },
                    inactive_char_style: ContentStyle::plain(),
                },
                theme_on_defocus: EditorTheme {
                    prefix: String::from_str("v "),
                    prefix_style: ContentStyle {
                        foreground: Some(Color::Blue),
                        background: None,
                        bold: false,
                        dim: true,
                    },
                    active_char_style: dim,
                    inactive_char_style: dim,
                },
                mode: EditMode::Insert,
                word_break_chars,
            },
            json: JsonConfig {
                max_streams: None,
                theme: JsonTheme {
                    indent: 2,
                    curly_brackets_style: bold,
                    square_brackets_style: bold,
                    key_style: ContentStyle {
                        foreground: Some(Color::Cyan),
                        background: None,
                        bold: false,
                        dim: false,
                    },
                    string_value_style: ContentStyle {
                        foreground: Some(Color::Green),
                        background: None,
                        bold: false,
                        dim: false,
                    },
                    number_value_style: ContentStyle::plain(),
                    boolean_value_style: ContentStyle::plain(),
                    null_value_style: ContentStyle {
                        foreground: Some(Color::Grey),
                        background: None,
                        bold: false,
                        dim: false,
                    },
                },
            },
            completion: CompletionConfig {
                lines: Some(3),
                cursor: String::from_str("> "),
                search_result_chunk_size: 100,
                search_load_chunk_size: 50000,
                active_item_style: ContentStyle {
                    foreground: Some(Color::Grey),
                    background: Some(Color::Yellow),
                    bold: false,
                    dim: false,
                },
                inactive_item_style: ContentStyle {
                    foreground: Some(Color::Grey),
                    background: None,
                    bold: false,
                    dim: false,
                },
            },
            keybinds: Keybinds::new_default(),
        }
    }
}

} // verus!
