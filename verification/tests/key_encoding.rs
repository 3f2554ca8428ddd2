use color_ssh::key_encoding::{
    encode_key_event, encode_key_event_bytes, encode_mouse_event_bytes, KeyCode, KeyInput, KeyModifiers,
    MouseProtocolEncoding,
};

#[test]
fn encode_key_event_ctrl_char() {
    let key = KeyInput::new(KeyCode::Char('C'), KeyModifiers::from_flags(false, true, false));
    assert_eq!(encode_key_event(key), Some(vec![3]));
}

#[test]
fn encode_key_event_arrow() {
    let key = KeyInput::new(KeyCode::Up, KeyModifiers::none());
    assert_eq!(encode_key_event(key), Some(b"\x1b[A".to_vec()));
}

#[test]
fn encode_key_event_plain_and_unsupported_keys() {
    assert_eq!(encode_key_event(KeyInput::new(KeyCode::Char('é'), KeyModifiers::none())), Some("é".as_bytes().to_vec()));
    assert_eq!(encode_key_event(KeyInput::new(KeyCode::Enter, KeyModifiers::none())), Some(vec![b'\r']));
    assert_eq!(encode_key_event(KeyInput::new(KeyCode::F(1), KeyModifiers::none())), None);
}

#[test]
fn encode_key_event_bytes_adds_xterm_modifiers() {
    let ctrl_up = KeyInput::new(KeyCode::Up, KeyModifiers::from_flags(false, true, false));
    assert_eq!(encode_key_event_bytes(ctrl_up), Some(b"\x1b[1;5A".to_vec()));
    let alt_x = KeyInput::new(KeyCode::Char('x'), KeyModifiers::from_flags(false, false, true));
    assert_eq!(encode_key_event_bytes(alt_x), Some(b"\x1bx".to_vec()));
}

#[test]
fn mouse_reports_in_sgr_and_legacy_form() {
    assert_eq!(encode_mouse_event_bytes(MouseProtocolEncoding::Sgr, 0, 12, 34, false), b"\x1b[<0;12;34M".to_vec());
    assert_eq!(encode_mouse_event_bytes(MouseProtocolEncoding::Sgr, 2, 1, 1, true), b"\x1b[<2;1;1m".to_vec());
    assert_eq!(encode_mouse_event_bytes(MouseProtocolEncoding::Default, 0, 300, 5, false), vec![0x1b, b'[', b'M', 32, 255, 37]);
    assert_eq!(encode_mouse_event_bytes(MouseProtocolEncoding::Default, 1, 5, 5, true), vec![0x1b, b'[', b'M', 35, 37, 37]);
}
