use sdl::joy::{get_joystick_name, is_joystick_open, wrap_joystick, Joystick};

#[test]
fn open_with_null_handle_is_error() {
    let r = Joystick::open(0, "Invalid joystick index".to_string());
    assert_eq!(r, Err("Invalid joystick index".to_string()));
}

#[test]
fn open_with_handle_owns_it() {
    let r = Joystick::open(0x7f00_1000, "unused".to_string());
    match r {
        Ok(j) => assert_eq!(j.raw, 0x7f00_1000),
        Err(e) => panic!("unexpected error {}", e),
    }
}

#[test]
fn open_error_message_is_passed_through_empty() {
    let r = Joystick::open(0, String::new());
    assert_eq!(r, Err(String::new()));
}

#[test]
fn wrap_keeps_handle() {
    let j = wrap_joystick(42);
    assert_eq!(j.raw, 42);
    assert!(j == Joystick { raw: 42 });
    assert!(wrap_joystick(43) != j);
}

#[test]
fn name_missing_is_error() {
    let r = get_joystick_name(None, "Invalid joystick index".to_string());
    assert_eq!(r, Err("Invalid joystick index".to_string()));
}

#[test]
fn name_ascii_is_decoded() {
    let r = get_joystick_name(Some(b"Logitech Dual Action".to_vec()), "unused".to_string());
    assert_eq!(r, Ok("Logitech Dual Action".to_string()));
}

#[test]
fn name_multibyte_is_decoded() {
    let bytes = vec![0x4d, 0x61, 0x6e, 0x65, 0x74, 0x74, 0x65, 0x20, 0xc3, 0xa9];
    let r = get_joystick_name(Some(bytes), "unused".to_string());
    assert_eq!(r, Ok("Manette \u{e9}".to_string()));
}

#[test]
fn name_empty_string_is_ok() {
    let r = get_joystick_name(Some(Vec::new()), "unused".to_string());
    assert_eq!(r, Ok(String::new()));
}

#[test]
fn open_status_one_only() {
    assert!(is_joystick_open(1));
    assert!(!is_joystick_open(0));
    assert!(!is_joystick_open(2));
    assert!(!is_joystick_open(-1));
}
