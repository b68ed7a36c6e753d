use rintty::animation::{Animation, Rect};
use rintty::screen::Screen;
use rintty::style::{Cell, Color, Style};

fn animation(width: u16, height: u16) -> Animation {
    Animation::new(Rect { x: 0, y: 0, width, height }).expect("an area with cells")
}

fn row_text(screen: &Screen, y: u16) -> String {
    (0..screen.width()).map(|x| screen.cell(x, y).unwrap().ch).collect()
}

#[test]
fn two_letters_and_a_line_feed() {
    let mut anim = animation(10, 3);
    anim.advance(b"AB\n");
    let screen = anim.screen();
    assert_eq!(screen.cursor(), (0, 1));
    assert_eq!(screen.cell(0, 0).unwrap().ch, 'A');
    assert_eq!(screen.cell(1, 0).unwrap().ch, 'B');
    assert_eq!(row_text(screen, 0), "AB        ");
}

#[test]
fn red_foreground_then_a_letter() {
    let mut anim = animation(10, 3);
    anim.advance(b"\x1b[31mX");
    let cell = anim.screen().cell(0, 0).unwrap();
    assert_eq!(cell.ch, 'X');
    assert_eq!(cell.style.fg, Some(Color::Indexed(1)));
    let mut expected = Style::new();
    expected.fg = Some(Color::Indexed(1));
    assert_eq!(cell, Cell { ch: 'X', style: expected });
}

#[test]
fn sixth_letter_wraps_to_the_next_row() {
    let mut anim = animation(5, 2);
    anim.advance(b"ABCDEF");
    let screen = anim.screen();
    assert_eq!(row_text(screen, 0), "ABCDE");
    assert_eq!(row_text(screen, 1), "F    ");
    assert_eq!(screen.cursor(), (1, 1));
}

#[test]
fn line_feed_on_a_full_screen_scrolls() {
    let mut anim = animation(4, 2);
    anim.advance(b"ABCDEFGH");
    assert_eq!(row_text(anim.screen(), 0), "ABCD");
    assert_eq!(row_text(anim.screen(), 1), "EFGH");
    anim.advance(b"\n");
    let screen = anim.screen();
    assert_eq!(row_text(screen, 0), "EFGH");
    assert_eq!(row_text(screen, 1), "    ");
    for x in 0..4 {
        assert_eq!(screen.cell(x, 1), Some(Cell { ch: ' ', style: Style::new() }));
    }
    assert_eq!(screen.cursor(), (0, 1));
}
