use termdraw::error::Error;
use termdraw::terminal::{
    input_action, on_input, InputAction, Terminal, ENABLE_ECHO_INPUT, ENABLE_LINE_INPUT,
    ENABLE_PROCESSED_INPUT, ENABLE_VIRTUAL_TERMINAL_PROCESSING, QUIT_KEY,
};

#[test]
fn raw_mode_round_trip() {
    let original: u32 = 0x01F7;
    let mut t = Terminal::new();
    let applied = t.enable_raw_mode(Some(original)).unwrap().unwrap();
    assert_eq!(applied, 0x01F0);
    assert_eq!(applied & (ENABLE_ECHO_INPUT | ENABLE_LINE_INPUT | ENABLE_PROCESSED_INPUT), 0);
    assert!(t.is_raw());
    assert_eq!(t.disable_raw_mode(), Some(original));
    assert!(!t.is_raw());
    assert_eq!(t.disable_raw_mode(), None);
}

#[test]
fn raw_mode_enabled_twice_keeps_original() {
    let mut t = Terminal::new();
    assert_eq!(t.enable_raw_mode(Some(7)), Ok(Some(0)));
    assert_eq!(t.enable_raw_mode(Some(0)), Ok(None));
    assert_eq!(t.disable_raw_mode(), Some(7));
}

#[test]
fn raw_mode_refuses_failed_query() {
    let mut t = Terminal::new();
    assert_eq!(t.enable_raw_mode(None), Err(Error::ModeQueryFailure));
    assert!(!t.is_raw());
    assert_eq!(t.disable_raw_mode(), None);
}

#[test]
fn virtual_terminal_round_trip() {
    let mut t = Terminal::new();
    assert_eq!(t.enable_virtual_terminal_processing(Some(0x3)), Ok(Some(0x3 | ENABLE_VIRTUAL_TERMINAL_PROCESSING)));
    assert!(t.is_virtual_terminal());
    assert_eq!(t.enable_virtual_terminal_processing(Some(0x7)), Ok(None));
    assert_eq!(t.disable_virtual_terminal_processing(), Some(0x3));
    assert_eq!(t.disable_virtual_terminal_processing(), None);
    assert_eq!(t.enable_virtual_terminal_processing(None), Err(Error::ModeQueryFailure));
}

#[test]
fn alternate_buffer_enter_then_exit() {
    let mut t = Terminal::new();
    let mut out = Vec::new();
    out.extend(t.enter_alternate_buffer());
    assert!(t.in_alternate_buffer());
    out.extend(t.enter_alternate_buffer());
    out.extend(b"drawing".iter());
    out.extend(t.exit_alternate_buffer());
    out.extend(t.exit_alternate_buffer());
    assert!(!t.in_alternate_buffer());
    assert_eq!(out, b"\x1b[?1049hdrawing\x1b[?1049l".to_vec());
}

#[test]
fn close_restores_in_reverse_order() {
    let mut t = Terminal::new();
    t.enable_raw_mode(Some(0x1F7)).unwrap();
    t.enable_virtual_terminal_processing(Some(0x3)).unwrap();
    t.enter_alternate_buffer();
    let steps = t.close();
    assert_eq!(steps.exit_sequence, b"\x1b[?1049l".to_vec());
    assert_eq!(steps.output_mode, Some(0x3));
    assert_eq!(steps.input_mode, Some(0x1F7));
    assert!(!t.is_raw() && !t.is_virtual_terminal() && !t.in_alternate_buffer());
    let again = t.close();
    assert!(again.exit_sequence.is_empty());
    assert_eq!(again.output_mode, None);
    assert_eq!(again.input_mode, None);
}

#[test]
fn input_decisions() {
    assert_eq!(input_action(&[], true), InputAction::Stop);
    assert_eq!(input_action(&[QUIT_KEY, b'a'], true), InputAction::Stop);
    assert_eq!(input_action(b"abc", true), InputAction::Echo);
    assert_eq!(input_action(b"abc", false), InputAction::Ignore);
}

#[test]
fn on_input_checks_utf8() {
    assert_eq!(on_input(&[]), InputAction::Stop);
    assert_eq!(on_input(&[17]), InputAction::Stop);
    assert_eq!(on_input("hé┼".as_bytes()), InputAction::Echo);
    assert_eq!(on_input(&[b'a', 0xFF]), InputAction::Ignore);
    assert_eq!(on_input(&[0xC3]), InputAction::Ignore);
    assert_eq!(on_input(&[0xED, 0xA0, 0x80]), InputAction::Ignore);
}

#[test]
fn empty_read_ends_loop() {
    let reads: Vec<Vec<u8>> = vec![b"ab".to_vec(), vec![0xFF], vec![], b"never".to_vec()];
    let mut done = 0;
    let mut echoed: Vec<u8> = Vec::new();
    for chunk in &reads {
        done += 1;
        match on_input(chunk) {
            InputAction::Stop => break,
            InputAction::Echo => echoed.extend(chunk.iter()),
            InputAction::Ignore => {}
        }
    }
    assert_eq!(done, 3);
    assert_eq!(echoed, b"ab".to_vec());
}
