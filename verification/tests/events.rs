use rintty::event::Event;
use rintty::screen::Screen;
use rintty::style::{Color, Style};

fn csi(params: &[&[u16]], action: char) -> Event {
    Event::CsiDispatch {
        params: params.iter().map(|group| group.to_vec()).collect(),
        intermediates: Vec::new(),
        ignore: false,
        action,
    }
}

fn snapshot(screen: &Screen) -> (Vec<String>, (u16, u16), Style) {
    let rows = (0..screen.height())
        .map(|y| (0..screen.width()).map(|x| screen.cell(x, y).unwrap().ch).collect())
        .collect();
    (rows, screen.cursor(), screen.current_style())
}

#[test]
fn apply_dispatches_print_execute_and_control_sequences() {
    let mut screen = Screen::new(4, 2);
    screen.apply(&Event::Print('a'));
    assert_eq!(screen.cursor(), (1, 0));
    screen.apply(&Event::Execute(b'\n'));
    assert_eq!(screen.cursor(), (0, 1));
    screen.apply(&csi(&[&[1], &[4]], 'H'));
    assert_eq!(screen.cursor(), (3, 0));
    screen.apply(&csi(&[&[36]], 'm'));
    assert_eq!(screen.current_style().fg, Some(Color::Indexed(6)));
    assert_eq!(snapshot(&screen).0, vec!["a   ", "    "]);
}

#[test]
fn apply_passes_over_string_and_escape_events() {
    let mut screen = Screen::new(4, 2);
    screen.apply(&Event::Print('a'));
    let before = snapshot(&screen);
    let passed_over = [
        Event::Hook { params: vec![vec![1]], intermediates: vec![], ignore: false, action: 'q' },
        Event::Put(b'z'),
        Event::Unhook,
        Event::OscDispatch { params: vec![b"0".to_vec(), b"t".to_vec()], bell_terminated: true },
        Event::EscDispatch { intermediates: vec![], ignore: false, byte: b'c' },
    ];
    for event in &passed_over {
        screen.apply(event);
        assert_eq!(snapshot(&screen), before);
    }
}

#[test]
fn apply_all_is_apply_for_each_event_in_order() {
    let events = vec![
        Event::Print('a'),
        Event::Print('b'),
        csi(&[&[31]], 'm'),
        Event::Execute(b'\n'),
        Event::Print('c'),
        csi(&[&[1]], 'K'),
        Event::Print('d'),
        Event::Unhook,
        csi(&[], 'H'),
        Event::Print('e'),
    ];
    let mut at_once = Screen::new(3, 2);
    at_once.apply_all(&events);
    let mut one_by_one = Screen::new(3, 2);
    for event in &events {
        one_by_one.apply(event);
    }
    assert_eq!(snapshot(&at_once), snapshot(&one_by_one));
    assert_eq!(snapshot(&at_once).0, vec!["eb ", " d "]);
    assert_eq!(at_once.cursor(), (1, 0));
    let mut untouched = Screen::new(3, 2);
    untouched.apply_all(&Vec::new());
    assert_eq!(snapshot(&untouched), snapshot(&Screen::new(3, 2)));
}

#[test]
fn any_events_keep_the_cursor_and_the_grid_in_shape() {
    let mut screen = Screen::new(3, 2);
    let mut seed: u32 = 12345;
    for _ in 0..4000 {
        seed = seed.wrapping_mul(1664525).wrapping_add(1013904223);
        let pick = (seed >> 16) % 8;
        let value = ((seed >> 8) % 70) as u16;
        let event = match pick {
            0 | 1 => Event::Print(char::from(b'a' + (value % 26) as u8)),
            2 => Event::Execute([0x0A, 0x0D, 0x08, 0x07][(value % 4) as usize]),
            3 => csi(&[&[value], &[value / 7]], ['A', 'B', 'C', 'D'][(value % 4) as usize]),
            4 => csi(&[&[value % 5], &[value % 6]], ['H', 'f', 'd'][(value % 3) as usize]),
            5 => csi(&[&[value % 5]], ['J', 'K'][(value % 2) as usize]),
            6 => csi(&[&[value], &[value % 9]], 'm'),
            _ => csi(&[&[value % 8]], ['l', 't', 'h', 'q'][(value % 4) as usize]),
        };
        screen.apply(&event);
        let (column, row) = screen.cursor();
        assert!(column <= 3);
        assert!(row < 2);
        assert_eq!((screen.width(), screen.height()), (3, 2));
        assert!(screen.cell(2, 1).is_some());
        assert!(screen.cell(3, 0).is_none());
        assert!(screen.cell(0, 2).is_none());
    }
}
