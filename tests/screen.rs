use typp::editor::{Editor, Position};
use typp::key::{Key, TermSize};
use typp::screen::{welcome_banner, ScreenOp};

fn line(s: &str) -> ScreenOp {
    ScreenOp::Line(s.to_string())
}

#[test]
fn welcome_banner_at_width_forty() {
    let editor = Editor::new(0);
    let banner = editor.draw_welcome_message(TermSize::new(40, 10));
    assert_eq!(banner, "~        TyPP -- version 1.0.0");
    assert!(banner.len() <= 40);
}

#[test]
fn welcome_banner_is_cut_to_width() {
    assert_eq!(welcome_banner(10), "~TyPP -- v");
    assert_eq!(welcome_banner(1), "~");
    assert_eq!(welcome_banner(0), "");
}

#[test]
fn welcome_banner_padding_never_negative() {
    assert_eq!(welcome_banner(23), "~TyPP -- version 1.0.0");
    assert_eq!(welcome_banner(24), "~TyPP -- version 1.0.0");
    assert_eq!(welcome_banner(25), "~ TyPP -- version 1.0.0");
    assert_eq!(welcome_banner(80), format!("~{}TyPP -- version 1.0.0", " ".repeat(28)));
}

#[test]
fn empty_document_frame() {
    let editor = Editor::new(0);
    let ops = editor.refresh_screen(TermSize::new(30, 7));
    let mut expected = vec![ScreenOp::HideCursor, ScreenOp::MoveCursor(Position { x: 0, y: 0 })];
    for row in 0..6 {
        expected.push(ScreenOp::ClearLine);
        if row == 2 {
            expected.push(line("~   TyPP -- version 1.0.0"));
        } else {
            expected.push(line("~"));
        }
    }
    expected.push(ScreenOp::MoveCursor(Position { x: 0, y: 0 }));
    expected.push(ScreenOp::ShowCursor);
    expected.push(ScreenOp::Flush);
    assert_eq!(ops, expected);
}

#[test]
fn nonempty_document_never_shows_banner() {
    let mut editor = Editor::new(2);
    let s = TermSize::new(40, 12);
    editor.process_keypress(Key::Char('j'), s);
    let ops = editor.refresh_screen(s);
    assert_eq!(ops.len(), 2 + 2 * 11 + 3);
    assert_eq!(ops[3], ScreenOp::DocumentLine { index: 0, start: 0, end: 40 });
    assert_eq!(ops[5], ScreenOp::DocumentLine { index: 1, start: 0, end: 40 });
    for op in &ops[6..24] {
        assert!(*op == ScreenOp::ClearLine || *op == line("~"));
    }
    assert_eq!(ops[24], ScreenOp::MoveCursor(Position { x: 0, y: 1 }));
    let lines: Vec<&ScreenOp> = ops.iter().filter(|op| matches!(op, ScreenOp::Line(_))).collect();
    assert!(lines.iter().all(|op| **op == line("~")));
}

#[test]
fn draw_row_spans_full_width() {
    let editor = Editor::new(5);
    assert_eq!(
        editor.draw_row(3, TermSize::new(72, 20)),
        ScreenOp::DocumentLine { index: 3, start: 0, end: 72 }
    );
}

#[test]
fn draw_rows_appends_every_row_but_the_last() {
    let editor = Editor::new(1);
    let mut ops = vec![ScreenOp::Flush];
    editor.draw_rows(TermSize::new(5, 3), &mut ops);
    assert_eq!(
        ops,
        vec![
            ScreenOp::Flush,
            ScreenOp::ClearLine,
            ScreenOp::DocumentLine { index: 0, start: 0, end: 5 },
            ScreenOp::ClearLine,
            line("~"),
        ]
    );
}

#[test]
fn zero_height_draws_no_rows() {
    let editor = Editor::new(0);
    let ops = editor.refresh_screen(TermSize::new(10, 0));
    assert_eq!(ops.len(), 5);
}

#[test]
fn quit_frame_clears_and_says_goodbye() {
    let mut editor = Editor::new(3);
    editor.process_keypress(Key::Ctrl('q'), TermSize::new(10, 10));
    let ops = editor.refresh_screen(TermSize::new(10, 10));
    assert_eq!(
        ops,
        vec![
            ScreenOp::HideCursor,
            ScreenOp::MoveCursor(Position { x: 0, y: 0 }),
            ScreenOp::ClearScreen,
            line("Goodbye."),
            ScreenOp::ShowCursor,
            ScreenOp::Flush,
        ]
    );
}

#[test]
fn quit_stops_the_loop_before_another_key() {
    let mut editor = Editor::new(0);
    let s = TermSize::new(10, 4);
    let keys = vec![Key::Char('j'), Key::Ctrl('q'), Key::Char('j'), Key::Char('l')];
    let frames = editor.run(&keys, s);
    assert_eq!(frames.len(), 3);
    assert!(editor.should_quit());
    assert_eq!(editor.cursor_position(), Position { x: 0, y: 1 });
    assert_eq!(frames[0][frames[0].len() - 3], ScreenOp::MoveCursor(Position { x: 0, y: 0 }));
    assert_eq!(frames[1][frames[1].len() - 3], ScreenOp::MoveCursor(Position { x: 0, y: 1 }));
    let last = &frames[2];
    assert!(last.contains(&ScreenOp::ClearScreen));
    let lines: Vec<&ScreenOp> = last.iter().filter(|op| matches!(op, ScreenOp::Line(_))).collect();
    assert_eq!(lines, vec![&line("Goodbye.")]);
}

#[test]
fn run_ends_when_keys_run_out() {
    let mut editor = Editor::new(0);
    let keys = vec![Key::Char('l'), Key::Char('l'), Key::Other];
    let frames = editor.run(&keys, TermSize::new(10, 4));
    assert_eq!(frames.len(), 4);
    assert!(!editor.should_quit());
    assert_eq!(editor.cursor_position(), Position { x: 2, y: 0 });
    assert_eq!(frames[3][frames[3].len() - 3], ScreenOp::MoveCursor(Position { x: 2, y: 0 }));
}

#[test]
fn run_after_quit_paints_farewell_only() {
    let mut editor = Editor::new(0);
    editor.process_keypress(Key::Ctrl('q'), TermSize::new(10, 4));
    let frames = editor.run(&vec![Key::Char('j')], TermSize::new(10, 4));
    assert_eq!(frames.len(), 1);
    assert!(frames[0].contains(&line("Goodbye.")));
    assert_eq!(editor.cursor_position(), Position { x: 0, y: 0 });
}
