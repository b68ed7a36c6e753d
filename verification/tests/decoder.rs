use rintty::decoder::Decoder;
use rintty::event::Event;

fn decode(bytes: &[u8]) -> Vec<Event> {
    Decoder::new().decode(bytes)
}

fn csi_event(params: &[&[u16]], intermediates: &[u8], action: char) -> Event {
    Event::CsiDispatch {
        params: params.iter().map(|group| group.to_vec()).collect(),
        intermediates: intermediates.to_vec(),
        ignore: false,
        action,
    }
}

#[test]
fn plain_text_becomes_print_events() {
    assert_eq!(decode(b"AB"), vec![Event::Print('A'), Event::Print('B')]);
    assert_eq!(decode(b""), vec![]);
}

#[test]
fn control_bytes_become_execute_events() {
    assert_eq!(
        decode(b"A\n\r\x08\x07"),
        vec![
            Event::Print('A'),
            Event::Execute(0x0A),
            Event::Execute(0x0D),
            Event::Execute(0x08),
            Event::Execute(0x07),
        ]
    );
}

#[test]
fn control_sequence_carries_its_parameters() {
    assert_eq!(decode(b"\x1b[31m"), vec![csi_event(&[&[31]], b"", 'm')]);
    assert_eq!(decode(b"\x1b[5;12H"), vec![csi_event(&[&[5], &[12]], b"", 'H')]);
    assert_eq!(decode(b"\x1b[1;31;42mX"), vec![
        csi_event(&[&[1], &[31], &[42]], b"", 'm'),
        Event::Print('X'),
    ]);
}

#[test]
fn control_sequence_without_parameters_carries_one_zero() {
    assert_eq!(decode(b"\x1b[m"), vec![csi_event(&[&[0]], b"", 'm')]);
    assert_eq!(decode(b"\x1b[A"), vec![csi_event(&[&[0]], b"", 'A')]);
    assert_eq!(decode(b"\x1b[;5H"), vec![csi_event(&[&[0], &[5]], b"", 'H')]);
}

#[test]
fn control_sequence_groups_subparameters() {
    assert_eq!(decode(b"\x1b[38:5:1;4m"), vec![csi_event(&[&[38, 5, 1], &[4]], b"", 'm')]);
}

#[test]
fn control_sequence_carries_its_intermediates() {
    assert_eq!(decode(b"\x1b[?25l"), vec![csi_event(&[&[25]], b"?", 'l')]);
    assert_eq!(decode(b"\x1b[2 q"), vec![csi_event(&[&[2]], b" ", 'q')]);
}

#[test]
fn large_parameters_saturate() {
    assert_eq!(decode(b"\x1b[99999999B"), vec![csi_event(&[&[65535]], b"", 'B')]);
}

#[test]
fn sequence_split_over_two_chunks_is_completed() {
    let mut decoder = Decoder::new();
    assert_eq!(decoder.decode(b"A\x1b[3"), vec![Event::Print('A')]);
    assert_eq!(decoder.decode(b"1"), vec![]);
    assert_eq!(decoder.decode(b"mX"), vec![csi_event(&[&[31]], b"", 'm'), Event::Print('X')]);
}

#[test]
fn character_split_over_two_chunks_is_reassembled() {
    let euro = "€".as_bytes();
    assert_eq!(euro.len(), 3);
    let mut decoder = Decoder::new();
    assert_eq!(decoder.decode(&euro[..1]), vec![]);
    assert_eq!(decoder.decode(&euro[1..2]), vec![]);
    assert_eq!(decoder.decode(&euro[2..]), vec![Event::Print('€')]);
    assert_eq!(decode("a€ü".as_bytes()), vec![
        Event::Print('a'),
        Event::Print('€'),
        Event::Print('ü'),
    ]);
}

#[test]
fn invalid_bytes_become_the_replacement_character() {
    assert_eq!(decode(b"a\xffb"), vec![
        Event::Print('a'),
        Event::Print('\u{fffd}'),
        Event::Print('b'),
    ]);
}

#[test]
fn operating_system_command_carries_its_strings() {
    assert_eq!(decode(b"\x1b]0;title\x07"), vec![Event::OscDispatch {
        params: vec![b"0".to_vec(), b"title".to_vec()],
        bell_terminated: true,
    }]);
    let events = decode(b"\x1b]2;ab\x1b\\");
    assert_eq!(events[0], Event::OscDispatch {
        params: vec![b"2".to_vec(), b"ab".to_vec()],
        bell_terminated: false,
    });
}

#[test]
fn escape_sequence_carries_its_final_byte() {
    assert_eq!(decode(b"\x1b7"), vec![Event::EscDispatch {
        intermediates: vec![],
        ignore: false,
        byte: b'7',
    }]);
    assert_eq!(decode(b"\x1b(B"), vec![Event::EscDispatch {
        intermediates: vec![b'('],
        ignore: false,
        byte: b'B',
    }]);
}

#[test]
fn device_control_string_is_hooked_put_and_unhooked() {
    let events = decode(b"\x1bP1;2|ab\x1b\\");
    assert_eq!(events[0], Event::Hook {
        params: vec![vec![1], vec![2]],
        intermediates: vec![],
        ignore: false,
        action: '|',
    });
    assert_eq!(events[1], Event::Put(b'a'));
    assert_eq!(events[2], Event::Put(b'b'));
    assert_eq!(events[3], Event::Unhook);
}

#[test]
fn too_many_intermediates_set_the_ignore_flag() {
    assert_eq!(decode(b"\x1b[1 !\"p"), vec![Event::CsiDispatch {
        params: vec![vec![1]],
        intermediates: vec![b' ', b'!'],
        ignore: true,
        action: 'p',
    }]);
}

#[test]
fn every_byte_value_is_absorbed() {
    let mut decoder = Decoder::new();
    let all: Vec<u8> = (0..=255).collect();
    for _ in 0..3 {
        let _ = decoder.decode(&all);
    }
    for byte in all {
        let _ = decoder.decode(&[byte]);
        let _ = decoder.decode(&[0x1b, b'[', byte]);
        let _ = decoder.decode(&[0x1b, byte]);
    }
}

#[test]
fn new_decoder_has_no_sequence_under_way() {
    assert_eq!(decode(b"[31m"), vec![
        Event::Print('['),
        Event::Print('3'),
        Event::Print('1'),
        Event::Print('m'),
    ]);
    let mut used = Decoder::new();
    assert_eq!(used.decode(b"\x1b"), vec![]);
    assert_eq!(used.decode(b"[31m"), vec![csi_event(&[&[31]], b"", 'm')]);
}

#[test]
fn new_decoders_decode_alike() {
    let inputs: [&[u8]; 5] = [b"", b"abc\r\n", b"\x1b[1;2H\x1b[0m", b"\x1b]0;t\x07x", b"\xe2\x82"];
    for input in inputs {
        let mut first = Decoder::new();
        let mut second = Decoder::new();
        assert_eq!(first.decode(input), second.decode(input));
        assert_eq!(first.decode(b"\xacz"), second.decode(b"\xacz"));
    }
}
