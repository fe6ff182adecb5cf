use rustand::{
    number_length, Action, Document, Editor, KeyCode, KeyEvent, Position, ScreenOp, Size,
    Terminal, CONTROL,
};

fn editor(document: Document, width: u16, height: u16) -> Editor {
    Editor::new(document, Terminal::new(Size { width, height }))
}

fn key(code: KeyCode) -> KeyEvent {
    KeyEvent { code, modifiers: 0 }
}

fn ctrl(c: char) -> KeyEvent {
    KeyEvent { code: KeyCode::Char(c), modifiers: CONTROL }
}

fn press(e: &mut Editor, code: KeyCode, n: usize) {
    for _ in 0..n {
        assert_eq!(e.process_keypress(key(code)), Action::Nothing);
    }
}

fn print(s: &str) -> ScreenOp {
    ScreenOp::Print(s.to_string())
}

#[test]
fn scenario_a_down_then_up() {
    let mut e = editor(Document::default(), 80, 24);
    assert_eq!(e.cursor_position(), Position { x: 0, y: 0 });
    press(&mut e, KeyCode::Down, 30);
    assert_eq!(e.cursor_position().y, 23);
    press(&mut e, KeyCode::Up, 30);
    assert_eq!(e.cursor_position().y, 0);
}

#[test]
fn movement_saturates_at_every_edge() {
    let mut e = editor(Document::default(), 5, 3);
    press(&mut e, KeyCode::Right, 2);
    assert_eq!(e.cursor_position(), Position { x: 2, y: 0 });
    press(&mut e, KeyCode::Right, 10);
    assert_eq!(e.cursor_position().x, 5);
    press(&mut e, KeyCode::Left, 3);
    assert_eq!(e.cursor_position().x, 2);
    press(&mut e, KeyCode::Left, 10);
    assert_eq!(e.cursor_position().x, 0);
    press(&mut e, KeyCode::Down, 10);
    assert_eq!(e.cursor_position().y, 2);
    press(&mut e, KeyCode::Up, 1);
    assert_eq!(e.cursor_position().y, 1);
    press(&mut e, KeyCode::Up, 10);
    assert_eq!(e.cursor_position().y, 0);
}

#[test]
fn movement_on_a_one_cell_viewport() {
    let mut e = editor(Document::default(), 1, 1);
    press(&mut e, KeyCode::Down, 3);
    assert_eq!(e.cursor_position().y, 0);
    press(&mut e, KeyCode::Right, 3);
    assert_eq!(e.cursor_position().x, 1);
    press(&mut e, KeyCode::PageDown, 1);
    assert_eq!(e.cursor_position().y, 0);
}

#[test]
fn page_home_end_are_idempotent() {
    let mut e = editor(Document::default(), 80, 24);
    press(&mut e, KeyCode::Down, 5);
    press(&mut e, KeyCode::Right, 7);
    for _ in 0..4 {
        press(&mut e, KeyCode::PageUp, 1);
        assert_eq!(e.cursor_position(), Position { x: 7, y: 0 });
    }
    for _ in 0..4 {
        press(&mut e, KeyCode::End, 1);
        assert_eq!(e.cursor_position(), Position { x: 80, y: 0 });
    }
    press(&mut e, KeyCode::PageDown, 2);
    assert_eq!(e.cursor_position(), Position { x: 80, y: 23 });
    press(&mut e, KeyCode::Home, 2);
    assert_eq!(e.cursor_position(), Position { x: 0, y: 23 });
}

#[test]
fn control_c_and_control_q_quit() {
    let mut e = editor(Document::default(), 80, 24);
    assert!(!e.should_quit());
    assert_eq!(e.process_keypress(ctrl('c')), Action::Nothing);
    assert!(e.should_quit());
    let mut e = editor(Document::default(), 80, 24);
    press(&mut e, KeyCode::Down, 2);
    assert_eq!(e.process_keypress(ctrl('q')), Action::Nothing);
    assert!(e.should_quit());
    assert_eq!(e.cursor_position().y, 2);
    e.process_keypress(key(KeyCode::Char('x')));
    assert!(e.should_quit());
}

#[test]
fn other_characters_are_echoed() {
    let mut e = editor(Document::default(), 80, 24);
    assert_eq!(e.process_keypress(key(KeyCode::Char('c'))), Action::Echo('c'));
    assert_eq!(e.process_keypress(ctrl('x')), Action::Echo('x'));
    let shifted = KeyEvent { code: KeyCode::Char('q'), modifiers: CONTROL | 1 };
    assert_eq!(e.process_keypress(shifted), Action::Echo('q'));
    assert_eq!(e.process_keypress(key(KeyCode::Other)), Action::Nothing);
    assert!(!e.should_quit());
    assert_eq!(e.cursor_position(), Position { x: 0, y: 0 });
}

#[test]
fn ctrl_char_check_needs_control_alone() {
    assert!(Editor::check_if_ctrl_char(ctrl('c'), 'c'));
    assert!(!Editor::check_if_ctrl_char(ctrl('c'), 'q'));
    assert!(!Editor::check_if_ctrl_char(key(KeyCode::Char('c')), 'c'));
}

#[test]
fn number_length_counts_digits() {
    assert_eq!(number_length(0), 1);
    assert_eq!(number_length(9), 1);
    assert_eq!(number_length(10), 2);
    assert_eq!(number_length(24), 2);
    assert_eq!(number_length(100), 3);
    assert_eq!(number_length(usize::MAX), usize::MAX.to_string().len());
}

#[test]
fn scenario_d_empty_document_draws_gutters_only() {
    let e = editor(Document::default(), 40, 10);
    let ops = e.draw_rows();
    assert_eq!(ops.len(), 30);
    for r in 0..10 {
        assert_eq!(ops[3 * r], ScreenOp::MoveTo(Position { x: 0, y: r }));
        assert_eq!(ops[3 * r + 1], ScreenOp::ClearLine);
        assert_eq!(ops[3 * r + 2], print(&format!("{:2} ", r)));
    }
}

#[test]
fn draw_rows_prints_document_text_clipped() {
    let e = editor(Document::from_text("hello world\nhi"), 10, 3);
    let ops = e.draw_rows();
    let expected = vec![
        ScreenOp::MoveTo(Position { x: 0, y: 0 }),
        ScreenOp::ClearLine,
        print("0 "),
        print("hello worl"),
        ScreenOp::MoveTo(Position { x: 0, y: 1 }),
        ScreenOp::ClearLine,
        print("1 "),
        print("hi"),
        ScreenOp::MoveTo(Position { x: 0, y: 2 }),
        ScreenOp::ClearLine,
        print("2 "),
    ];
    assert_eq!(ops, expected);
    assert_eq!(e.draw_row(e.document().row(0).unwrap()), "hello worl");
}

#[test]
fn gutter_right_aligns_line_numbers() {
    let e = editor(Document::default(), 10, 100);
    let ops = e.draw_rows();
    assert_eq!(ops[2], print("  0 "));
    assert_eq!(ops[3 * 7 + 2], print("  7 "));
    assert_eq!(ops[3 * 42 + 2], print(" 42 "));
    assert_eq!(ops[3 * 99 + 2], print(" 99 "));
}

#[test]
fn refresh_screen_hides_draws_and_restores_cursor() {
    let mut e = editor(Document::from_text("ab"), 4, 2);
    press(&mut e, KeyCode::Right, 1);
    press(&mut e, KeyCode::Down, 1);
    let ops = e.refresh_screen();
    let expected = vec![
        ScreenOp::HideCursor,
        ScreenOp::MoveTo(Position { x: 0, y: 0 }),
        ScreenOp::MoveTo(Position { x: 0, y: 0 }),
        ScreenOp::ClearLine,
        print("0 "),
        print("ab"),
        ScreenOp::MoveTo(Position { x: 0, y: 1 }),
        ScreenOp::ClearLine,
        print("1 "),
        ScreenOp::MoveTo(Position { x: 1, y: 1 }),
        ScreenOp::ShowCursor,
    ];
    assert_eq!(ops, expected);
    e.process_keypress(ctrl('c'));
    let ops = e.refresh_screen();
    assert_eq!(ops.len(), expected.len() + 1);
    assert_eq!(ops[ops.len() - 1], print("Exiting RustAnd!"));
}

#[test]
fn exit_and_die_sequences() {
    assert_eq!(
        Editor::exit_screen(),
        vec![
            ScreenOp::ClearScreen,
            ScreenOp::MoveTo(Position { x: 0, y: 0 }),
            print("Exiting RustAnd"),
        ]
    );
    assert_eq!(
        Editor::die(),
        vec![ScreenOp::ClearScreen, ScreenOp::MoveTo(Position { x: 0, y: 0 })]
    );
}

#[test]
fn terminal_reports_its_size() {
    let t = Terminal::new(Size { width: 40, height: 10 });
    assert_eq!(*t.size(), Size { width: 40, height: 10 });
    let e = editor(Document::default(), 40, 10);
    assert_eq!(e.terminal().size().height, 10);
}
