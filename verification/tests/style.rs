use rintty::style::{Attribute, Cell, Color, Style};

#[test]
fn new_style_has_no_colour_and_no_attribute() {
    let style = Style::new();
    assert_eq!(style.fg, None);
    assert_eq!(style.bg, None);
    for attribute in [
        Attribute::Bold,
        Attribute::Dim,
        Attribute::Italic,
        Attribute::Underline,
        Attribute::SlowBlink,
        Attribute::RapidBlink,
        Attribute::Reverse,
        Attribute::Hidden,
        Attribute::CrossedOut,
    ] {
        assert!(!style.contains(attribute));
    }
    assert_eq!(Style::default(), style);
}

#[test]
fn default_cell_is_a_space_in_the_new_style() {
    assert_eq!(Cell::default(), Cell { ch: ' ', style: Style::new() });
    assert_eq!(Cell::empty(Style::new()), Cell::default());
    assert_eq!(Cell::new('x', Style::new()).ch, 'x');
}

#[test]
fn apply_sgr_accumulates() {
    let style = Style::new().apply_sgr(1).apply_sgr(4).apply_sgr(33).apply_sgr(41);
    assert!(style.bold);
    assert!(style.underline);
    assert!(!style.italic);
    assert_eq!(style.fg, Some(Color::Indexed(3)));
    assert_eq!(style.bg, Some(Color::Indexed(1)));
    let style = style.apply_sgr(22);
    assert!(!style.bold);
    assert!(style.underline);
    assert_eq!(style.apply_sgr(0), Style::new());
}

#[test]
fn apply_sgr_twenty_five_clears_both_blinks() {
    let style = Style::new().apply_sgr(5).apply_sgr(6);
    assert!(style.slow_blink && style.rapid_blink);
    let style = style.apply_sgr(25);
    assert!(!style.slow_blink && !style.rapid_blink);
}

#[test]
fn apply_sgr_colour_edges() {
    assert_eq!(Style::new().apply_sgr(30).fg, Some(Color::Indexed(0)));
    assert_eq!(Style::new().apply_sgr(37).fg, Some(Color::Indexed(7)));
    assert_eq!(Style::new().apply_sgr(38), Style::new());
    assert_eq!(Style::new().apply_sgr(39).fg, Some(Color::Reset));
    assert_eq!(Style::new().apply_sgr(40).bg, Some(Color::Indexed(0)));
    assert_eq!(Style::new().apply_sgr(47).bg, Some(Color::Indexed(7)));
    assert_eq!(Style::new().apply_sgr(48), Style::new());
    assert_eq!(Style::new().apply_sgr(49).bg, Some(Color::Reset));
    assert_eq!(Style::new().apply_sgr(29), Style::new());
}
