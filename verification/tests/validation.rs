//! Construction and configuration accept every string free of embedded
//! terminator bytes and reject every string holding one, reporting the byte
//! index of the first terminator.

use system_tray::SystemTray;
use system_tray::SystemTrayError;
use system_tray::Menu;
use system_tray::validate_native_string;

#[test]
fn valid_strings_construct() {
    let tray = SystemTray::new("TestOrg", "test.app");
    assert!(tray.is_ok());
    let tray = tray.unwrap();
    assert!(!tray.is_running());
    assert_eq!(tray.menu_len(), 0);
    assert!(!tray.has_icon());
}

#[test]
fn empty_strings_construct() {
    assert!(SystemTray::new("", "").is_ok());
}

#[test]
fn embedded_nul_in_organization_rejected() {
    let tray = SystemTray::new("Te\0st", "test.app");
    assert_eq!(tray.err(), Some(SystemTrayError::Ffi(2)));
}

#[test]
fn embedded_nul_in_app_id_rejected() {
    let tray = SystemTray::new("TestOrg", "a\0pp");
    assert_eq!(tray.err(), Some(SystemTrayError::Ffi(1)));
}

#[test]
fn organization_checked_before_app_id() {
    let tray = SystemTray::new("x\0", "\0");
    assert_eq!(tray.err(), Some(SystemTrayError::Ffi(1)));
}

#[test]
fn embedded_nul_in_menu_text_rejected() {
    let tray = SystemTray::new("TestOrg", "test.app").unwrap();
    let r = tray.menu(Menu::new("Op\0en".to_string(), "open".to_string()));
    assert_eq!(r.err(), Some(SystemTrayError::Ffi(2)));
}

#[test]
fn embedded_nul_in_menu_id_rejected() {
    let tray = SystemTray::new("TestOrg", "test.app").unwrap();
    let r = tray.menu(Menu::new("Open".to_string(), "op\0en".to_string()));
    assert_eq!(r.err(), Some(SystemTrayError::Ffi(2)));
}

#[test]
fn embedded_nul_in_icon_format_rejected() {
    let tray = SystemTray::new("TestOrg", "test.app").unwrap();
    let r = tray.icon(&[0u8; 10], "PN\0G");
    assert_eq!(r.err(), Some(SystemTrayError::Ffi(2)));
}

#[test]
fn icon_bytes_may_hold_terminators() {
    // Only strings are validated; the icon payload is an opaque byte buffer.
    let tray = SystemTray::new("TestOrg", "test.app").unwrap();
    let r = tray.icon(&[0u8, 0u8, 0u8], "PNG");
    assert!(r.is_ok());
}

#[test]
fn validate_native_string_accepts_plain_text() {
    assert_eq!(validate_native_string("hello world"), Ok(()));
    assert_eq!(validate_native_string(""), Ok(()));
}

#[test]
fn validate_native_string_reports_first_terminator() {
    assert_eq!(
        validate_native_string("ab\0c\0"),
        Err(SystemTrayError::Ffi(2))
    );
    assert_eq!(validate_native_string("\0"), Err(SystemTrayError::Ffi(0)));
}

#[test]
fn validate_native_string_counts_bytes_not_chars() {
    // 'é' encodes as two bytes, so the terminator sits at byte index 2.
    assert_eq!(validate_native_string("é\0"), Err(SystemTrayError::Ffi(2)));
}
