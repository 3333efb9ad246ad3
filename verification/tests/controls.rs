use jnv::buffer::TextBuffer;
use jnv::config::{Config, EditMode};
use jnv::context::{Context, Phase};
use jnv::debounce::Debouncer;
use jnv::editing::{add_to_nearest_array_index, distance_from, find_array_index};
use jnv::editor::Editor;
use jnv::event::{Event, KeyCode, KeyEvent, KeyEventKind, KeyModifiers};
use jnv::render::{Pane, PaneIndex, Renderer};
use jnv::router::{route_event, Focus, RouterAction};
use jnv::search::IncrementalSearcher;
use jnv::viewer::{viewer_op_for_event, ViewerKeybinds, ViewerOp};

fn press(code: KeyCode) -> Event {
    Event::Key(KeyEvent {
        code,
        modifiers: KeyModifiers { control: false, alt: false, shift: false },
        kind: KeyEventKind::Press,
    })
}

fn ctrl(c: char) -> Event {
    Event::Key(KeyEvent {
        code: KeyCode::Char(c),
        modifiers: KeyModifiers { control: true, alt: false, shift: false },
        kind: KeyEventKind::Press,
    })
}

fn shift(code: KeyCode) -> Event {
    Event::Key(KeyEvent {
        code,
        modifiers: KeyModifiers { control: false, alt: false, shift: true },
        kind: KeyEventKind::Press,
    })
}

fn default_editor(items: &[&str]) -> Editor {
    let cfg = Config::new_default();
    let mut searcher = IncrementalSearcher::new(3, 100);
    searcher.load_all(items.iter().map(|i| i.to_string()).collect(), 50);
    Editor::new(
        EditMode::Insert,
        cfg.editor.word_break_chars,
        cfg.editor.theme_on_focus,
        cfg.editor.theme_on_defocus,
        cfg.keybinds,
        searcher,
    )
}

fn type_text(editor: &mut Editor, text: &str) {
    for c in text.chars() {
        editor.operate(&press(KeyCode::Char(c)));
    }
}

#[test]
fn typing_edits_the_buffer() {
    let mut e = default_editor(&[]);
    type_text(&mut e, ".ab");
    assert_eq!(e.text(), ".ab");
    e.operate(&press(KeyCode::Backspace));
    assert_eq!(e.text(), ".a");
    e.operate(&ctrl('u'));
    assert_eq!(e.text(), "");
}

#[test]
fn word_motions_respect_break_chars() {
    let mut e = default_editor(&[]);
    type_text(&mut e, ".foo.bar");
    // Cursor sits at the end; erase back to the previous word break.
    e.operate(&ctrl('w'));
    assert_eq!(e.text(), ".foo.");
    e.operate(&ctrl('w'));
    assert_eq!(e.text(), ".");
}

#[test]
fn overwrite_mode_replaces_characters() {
    let mut b = TextBuffer::new();
    b.replace("abc");
    b.move_to_head();
    b.overwrite('x');
    assert_eq!(b.text(), "xbc");
    assert_eq!(b.pos, 1);
    b.move_to_tail();
    b.overwrite('!');
    assert_eq!(b.text(), "xbc!");
}

#[test]
fn completion_mode_walks_suggestions_and_leaves_on_typing() {
    let mut e = default_editor(&[".", ".alice", ".alpha"]);
    type_text(&mut e, ".a");
    e.operate(&press(KeyCode::Tab));
    // First stored match, in stored (sorted) order.
    assert_eq!(e.text(), ".alice");
    assert!(e.browsing);
    e.operate(&press(KeyCode::Down));
    assert_eq!(e.text(), ".alpha");
    e.operate(&press(KeyCode::Up));
    assert_eq!(e.text(), ".alice");
    // Any printable character resumes editing.
    e.operate(&press(KeyCode::Char('x')));
    assert!(!e.browsing);
    assert!(e.searcher.window.is_empty());
    assert_eq!(e.text(), ".alicex");
}

#[test]
fn completion_without_match_hints_and_keeps_text() {
    let mut e = default_editor(&[".", ".alice"]);
    type_text(&mut e, ".zzz");
    e.operate(&press(KeyCode::Tab));
    assert!(!e.browsing);
    assert_eq!(e.text(), ".zzz");
    assert_eq!(e.guide_text, "No suggestion found for '.zzz'");
}

#[test]
fn completion_hint_reports_loaded_count() {
    let mut e = default_editor(&[".", ".alice", ".alpha"]);
    type_text(&mut e, ".a");
    e.operate(&press(KeyCode::Tab));
    assert_eq!(e.guide_text, "Loaded all (3) suggestions");
}

#[test]
fn defocus_leaves_completion_mode() {
    let mut e = default_editor(&[".", ".alice"]);
    type_text(&mut e, ".a");
    e.operate(&press(KeyCode::Tab));
    assert!(e.browsing);
    e.defocus();
    assert!(!e.browsing);
    assert!(e.searcher.window.is_empty());
    assert!(e.guide_text.is_empty());
}

#[test]
fn router_copies_only_while_idle() {
    let r = route_event(Focus::Editor, Phase::Processing, &ctrl('o'));
    assert_eq!(r, RouterAction::DenyCopy);
    let r = route_event(Focus::Editor, Phase::Idle, &ctrl('o'));
    assert_eq!(r, RouterAction::CopyViewer);
}

#[test]
fn router_switches_focus_only_while_idle() {
    let r = route_event(Focus::Editor, Phase::Processing, &shift(KeyCode::Down));
    assert_eq!(r, RouterAction::DenyFocusSwitch);
    let r = route_event(Focus::Editor, Phase::Idle, &shift(KeyCode::Down));
    assert_eq!(r, RouterAction::SwitchFocus(Focus::Processor));
    // Switching back to the editor is refused while busy too.
    let r = route_event(Focus::Processor, Phase::Processing, &shift(KeyCode::Up));
    assert_eq!(r, RouterAction::DenyFocusSwitch);
    let r = route_event(Focus::Processor, Phase::Idle, &shift(KeyCode::Up));
    assert_eq!(r, RouterAction::SwitchFocus(Focus::Editor));
}

#[test]
fn router_forwards_by_focus_and_quits_on_interrupt() {
    assert_eq!(route_event(Focus::Editor, Phase::Idle, &ctrl('c')), RouterAction::Quit);
    assert_eq!(route_event(Focus::Editor, Phase::Idle, &ctrl('q')), RouterAction::CopyEditor);
    let e = press(KeyCode::Char('x'));
    assert_eq!(route_event(Focus::Editor, Phase::Idle, &e), RouterAction::ForwardToEditor(e));
    assert_eq!(
        route_event(Focus::Processor, Phase::Idle, &e),
        RouterAction::ForwardToViewer(e)
    );
    assert_eq!(
        route_event(Focus::Editor, Phase::Idle, &Event::Resize(80, 24)),
        RouterAction::DebounceResize(80, 24)
    );
}

#[test]
fn context_keeps_one_task_and_spinner_respects_idle() {
    let mut ctx = Context::new((80, 24));
    assert!(ctx.is_idle());
    let first = ctx.render_result();
    let second = ctx.render_result();
    assert_ne!(first, second);
    assert_eq!(ctx.current_task, Some(second));
    ctx.begin_processing();
    assert!(!ctx.is_idle());

    let mut frame: usize = 0;
    let pane = jnv::context::spinner_tick(&ctx, &mut frame);
    assert!(pane.is_some());
    assert_eq!(frame, 1);

    ctx.finish();
    let pane = jnv::context::spinner_tick(&ctx, &mut frame);
    assert!(pane.is_none());
    assert_eq!(frame, 1);

    ctx.cancel_current();
    assert_eq!(ctx.current_task, None);
}

#[test]
fn debouncer_emits_only_the_last_offer() {
    let mut d: Debouncer<String> = Debouncer::new();
    assert_eq!(d.tick(), None);
    d.offer(".".to_string());
    d.offer(".a".to_string());
    d.offer(".ab".to_string());
    assert_eq!(d.tick(), Some(".ab".to_string()));
    // The window emitted once; the slot is empty again.
    assert_eq!(d.tick(), None);
}

#[test]
fn renderer_drops_hint_panes_when_hints_are_disabled() {
    let mut r = Renderer::new(Pane::empty(), true);
    r.update_pane(PaneIndex::Guide, Pane::of_rows(vec!["hint".to_string()]));
    r.update_pane(PaneIndex::Processor, Pane::of_rows(vec!["body".to_string()]));
    assert!(r.guide.rows.is_empty());
    assert_eq!(r.processor.rows, vec!["body".to_string()]);

    let mut shown = Renderer::new(Pane::empty(), false);
    shown.update_pane(PaneIndex::Guide, Pane::of_rows(vec!["hint".to_string()]));
    assert_eq!(shown.guide.rows, vec!["hint".to_string()]);
    assert_eq!(shown.stack().len(), 5);
}

#[test]
fn viewer_keymap_classifies_navigation() {
    let kb = ViewerKeybinds::new_default();
    assert_eq!(viewer_op_for_event(&kb, &press(KeyCode::Up)), Some(ViewerOp::Up));
    assert_eq!(viewer_op_for_event(&kb, &ctrl('j')), Some(ViewerOp::Down));
    assert_eq!(viewer_op_for_event(&kb, &press(KeyCode::Enter)), Some(ViewerOp::Toggle));
    assert_eq!(viewer_op_for_event(&kb, &ctrl('p')), Some(ViewerOp::ExpandAll));
    assert_eq!(viewer_op_for_event(&kb, &ctrl('n')), Some(ViewerOp::CollapseAll));
    assert_eq!(viewer_op_for_event(&kb, &press(KeyCode::Char('z'))), None);
}

#[test]
fn find_array_index_locates_brackets() {
    let q: Vec<char> = ".foo[10].bar".chars().collect();
    assert_eq!(find_array_index(&q, 0), Some((4, 7)));
    let q2: Vec<char> = ".foo[-3]".chars().collect();
    assert_eq!(find_array_index(&q2, 0), Some((4, 7)));
    let q3: Vec<char> = ".foo.bar".chars().collect();
    assert_eq!(find_array_index(&q3, 0), None);
}

#[test]
fn distance_is_zero_inside_the_segment() {
    assert_eq!(distance_from(4, 7, 5), 0);
    assert_eq!(distance_from(4, 7, 2), 2);
    assert_eq!(distance_from(4, 7, 9), 2);
}

#[test]
fn array_index_steps_and_cycles() {
    let docs = vec!["[10,20,30]".to_string()];

    let mut b = TextBuffer::new();
    b.replace(".[0]");
    assert!(add_to_nearest_array_index(&mut b, &docs, 1));
    assert_eq!(b.text(), ".[1]");

    // Stepping past the last element cycles to the front.
    let mut b = TextBuffer::new();
    b.replace(".[2]");
    assert!(add_to_nearest_array_index(&mut b, &docs, 1));
    assert_eq!(b.text(), ".[0]");

    // Stepping back from the first element cycles to the back.
    let mut b = TextBuffer::new();
    b.replace(".[0]");
    assert!(add_to_nearest_array_index(&mut b, &docs, -1));
    assert_eq!(b.text(), ".[2]");

    // No bracketed index: nothing changes.
    let mut b = TextBuffer::new();
    b.replace(".foo");
    assert!(!add_to_nearest_array_index(&mut b, &docs, 1));
    assert_eq!(b.text(), ".foo");
}

#[test]
fn config_defaults_match_the_documented_values() {
    let cfg = Config::new_default();
    assert_eq!(cfg.query_debounce_duration_ms, 600);
    assert_eq!(cfg.resize_debounce_duration_ms, 200);
    assert_eq!(cfg.spin_duration_ms, 300);
    assert_eq!(cfg.json.theme.indent, 2);
    assert_eq!(cfg.completion.lines, Some(3));
    assert_eq!(cfg.completion.search_result_chunk_size, 100);
    assert_eq!(cfg.completion.search_load_chunk_size, 50000);
    let breaks: Vec<char> = cfg.editor.word_break_chars;
    assert_eq!(breaks, vec!['.', '|', '(', ')', '[', ']']);
}

#[test]
fn batch_update_lets_the_last_writer_win() {
    let mut r = Renderer::new(Pane::empty(), false);
    r.update_and_draw(vec![
        (PaneIndex::Processor, Pane::of_rows(vec!["first".to_string()])),
        (PaneIndex::Guide, Pane::of_rows(vec!["hint".to_string()])),
        (PaneIndex::Processor, Pane::of_rows(vec!["second".to_string()])),
    ]);
    assert_eq!(r.processor.rows, vec!["second".to_string()]);
    assert_eq!(r.guide.rows, vec!["hint".to_string()]);
    assert!(r.editor.rows.is_empty());
}

#[test]
fn array_index_step_picks_the_group_nearest_the_cursor() {
    let docs = vec!["{\"a\":[[10,20],[30]]}".to_string()];
    // Two bracket groups; the cursor at the end is nearest the second,
    // which steps within the inner array and cycles at its bound.
    let mut b = TextBuffer::new();
    b.replace(".a[0][1]");
    assert!(add_to_nearest_array_index(&mut b, &docs, 1));
    assert_eq!(b.text(), ".a[0][0]");

    // Cursor at the start: the first group is nearest; `.a` has two
    // elements, so its index steps without cycling.
    let mut b = TextBuffer::new();
    b.replace(".a[0][1]");
    b.move_to_head();
    assert!(add_to_nearest_array_index(&mut b, &docs, 1));
    assert_eq!(b.text(), ".a[1][1]");
}
