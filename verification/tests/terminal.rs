use elm_ui::terminal::{is_renderable, terminal_view, TerminalView};
use tui::backend::TestBackend;
use tui::buffer::Buffer;
use tui::layout::Rect;
use tui::widgets::Paragraph;
use tui::Terminal;

#[test]
fn each_row_ends_with_a_newline() {
    let buffer = Buffer::with_lines(vec!["ab", "cd", "ef"]);
    assert_eq!(terminal_view(&buffer), "ab\ncd\nef\n");
}

#[test]
fn an_empty_screen_has_no_text() {
    assert_eq!(terminal_view(&Buffer::empty(Rect::new(0, 0, 0, 0))), "");
    assert_eq!(terminal_view(&Buffer::empty(Rect::new(0, 0, 3, 0))), "");
    assert_eq!(terminal_view(&Buffer::empty(Rect::new(0, 0, 0, 2))), "\n\n");
}

#[test]
fn blank_cells_are_spaces() {
    let buffer = Buffer::empty(Rect::new(0, 0, 4, 2));
    assert_eq!(terminal_view(&buffer), "    \n    \n");
}

#[test]
fn a_symbol_may_be_longer_than_one_char() {
    let mut buffer = Buffer::empty(Rect::new(0, 0, 2, 1));
    buffer.get_mut(0, 0).set_symbol("e\u{301}");
    buffer.get_mut(1, 0).set_symbol("");
    assert_eq!(terminal_view(&buffer), "e\u{301}\n");
}

#[test]
fn the_trait_gives_the_same_text() {
    let buffer = Buffer::with_lines(vec!["hello", "world"]);
    assert_eq!(buffer.terminal_view(), "hello\nworld\n");
    assert_eq!(buffer.terminal_view(), terminal_view(&buffer));
}

#[test]
fn what_a_test_backend_rendered_can_be_read_back() {
    let mut terminal = Terminal::new(TestBackend::new(6, 2)).unwrap();
    terminal.draw(|frame| frame.render_widget(Paragraph::new("hi"), frame.size())).unwrap();
    assert_eq!(terminal.backend().buffer().terminal_view(), "hi    \n      \n");
}

#[test]
fn the_largest_screen_is_read_whole() {
    let buffer = Buffer::empty(Rect::new(0, 0, 255, 257));
    let text = terminal_view(&buffer);
    assert_eq!(text.len(), 256 * 257);
    assert_eq!(text.lines().count(), 257);
}

#[test]
fn only_a_screen_is_renderable() {
    assert!(is_renderable(&Buffer::empty(Rect::new(0, 0, 4, 2))));
    assert!(is_renderable(&Buffer::empty(Rect::new(0, 0, 0, 0))));
    assert!(!is_renderable(&Buffer::empty(Rect::new(1, 0, 4, 2))));
    assert!(!is_renderable(&Buffer::empty(Rect::new(0, 3, 4, 2))));
    let mut short = Buffer::empty(Rect::new(0, 0, 4, 2));
    short.content.pop();
    assert!(!is_renderable(&short));
    let mut wide = Buffer::empty(Rect::new(0, 0, 4, 2));
    wide.area.width = 5;
    assert!(!is_renderable(&wide));
}
