//! Decoding of polled raw events: known discriminants map to their events, a
//! menu click echoes its identifier verbatim, and an unknown discriminant is
//! reported with its exact value.

use system_tray::Event;
use system_tray::SystemTray;
use system_tray::SystemTrayError;
use system_tray::events::EVENT_CODE_MENU_ITEM_CLICKED;
use system_tray::events::EVENT_CODE_NONE;
use system_tray::events::EVENT_CODE_TRAY_CLICKED;
use system_tray::events::EVENT_CODE_TRAY_DOUBLE_CLICKED;
use system_tray::Menu;

#[test]
fn poll_before_start_returns_no_event() {
    let tray = SystemTray::new("TestOrg", "test.app").unwrap();
    // Polling a session that was never started is well defined.
    assert_eq!(tray.poll_event(EVENT_CODE_NONE, None), Ok(Event::NoEvent));
}

#[test]
fn known_discriminants_decode() {
    let tray = SystemTray::new("TestOrg", "test.app").unwrap();
    assert_eq!(tray.poll_event(EVENT_CODE_NONE, None), Ok(Event::NoEvent));
    assert_eq!(
        tray.poll_event(EVENT_CODE_TRAY_CLICKED, None),
        Ok(Event::TrayClicked)
    );
    assert_eq!(
        tray.poll_event(EVENT_CODE_TRAY_DOUBLE_CLICKED, None),
        Ok(Event::TrayDoubleClicked)
    );
}

#[test]
fn menu_click_echoes_identifier_verbatim() {
    let tray = SystemTray::new("TestOrg", "test.app").unwrap();
    let tray = tray
        .menu(Menu::new("Exit".to_string(), "exit".to_string()))
        .unwrap();
    // The click→poll cycle decodes to the identifier the item was added
    // with, every time.
    for _ in 0..1000 {
        let got = tray.poll_event(EVENT_CODE_MENU_ITEM_CLICKED, Some("exit".to_string()));
        assert_eq!(got, Ok(Event::MenuItemClicked("exit".to_string())));
    }
}

#[test]
fn menu_click_without_payload_is_a_send_error() {
    let tray = SystemTray::new("TestOrg", "test.app").unwrap();
    assert_eq!(
        tray.poll_event(EVENT_CODE_MENU_ITEM_CLICKED, None),
        Err(SystemTrayError::SendError)
    );
}

#[test]
fn unrecognized_discriminant_carries_its_value() {
    let tray = SystemTray::new("TestOrg", "test.app").unwrap();
    assert_eq!(
        tray.poll_event(7, None),
        Err(SystemTrayError::PollEventError(7))
    );
    assert_eq!(
        tray.poll_event(u32::MAX, Some("ignored".to_string())),
        Err(SystemTrayError::PollEventError(u32::MAX))
    );
}

#[test]
fn poll_failure_is_recoverable_per_call() {
    let mut tray = SystemTray::new("TestOrg", "test.app").unwrap();
    tray.start();
    assert!(tray.poll_event(99, None).is_err());
    // The next poll works as usual.
    assert_eq!(tray.poll_event(EVENT_CODE_NONE, None), Ok(Event::NoEvent));
    assert!(tray.is_running());
}

#[test]
fn scenario_full_session() {
    let tray = SystemTray::new("TestOrg", "test.app").unwrap();
    let tray = tray
        .menu(Menu::new("Open".to_string(), "open".to_string()))
        .unwrap()
        .menu(Menu::new("Exit".to_string(), "exit".to_string()))
        .unwrap();
    let mut tray = tray.icon(&[0u8; 10], "PNG").unwrap();
    assert_eq!(tray.menu_len(), 2);
    assert!(tray.has_icon());

    assert!(tray.start());

    // Idle: no event pending.
    assert_eq!(tray.poll_event(EVENT_CODE_NONE, None), Ok(Event::NoEvent));
    // A tray click arrives.
    assert_eq!(
        tray.poll_event(EVENT_CODE_TRAY_CLICKED, None),
        Ok(Event::TrayClicked)
    );
    // The "exit" menu entry is clicked.
    assert_eq!(
        tray.poll_event(EVENT_CODE_MENU_ITEM_CLICKED, Some("exit".to_string())),
        Ok(Event::MenuItemClicked("exit".to_string()))
    );

    // Stop owes exactly one join on the background loop.
    assert!(tray.stop());
    assert!(!tray.is_running());
}
