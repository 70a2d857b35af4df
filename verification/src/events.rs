//! The events a tray session can report, and the raw encoding the native
//! side uses for them.
//!
//! The native loop buffers at most one pending event and hands it out as a
//! discriminant plus, for a menu click, an owned identifier payload. The
//! session decodes that pair into an [`Event`].

use vstd::prelude::*;

use crate::error::SystemTrayError;

verus! {

/// The raw discriminant the native side uses for "no event pending".
pub const EVENT_CODE_NONE: u32 = 0;

/// The raw discriminant for a click on the tray icon.
pub const EVENT_CODE_TRAY_CLICKED: u32 = 1;

/// The raw discriminant for a double click on the tray icon.
pub const EVENT_CODE_TRAY_DOUBLE_CLICKED: u32 = 2;

/// The raw discriminant for a click on a context-menu entry; it comes with
/// an owned identifier payload.
pub const EVENT_CODE_MENU_ITEM_CLICKED: u32 = 3;

/// Represents the various events that can be received from the system tray.
#[derive(Debug, Clone, PartialEq, Eq)]
pub enum Event {
    /// No event occurred.
    NoEvent,
    /// The system tray icon was clicked.
    TrayClicked,
    /// The system tray icon was double-clicked.
    TrayDoubleClicked,
    /// A menu item in the system tray was clicked, identified by its ID.
    MenuItemClicked(String),
}

/// The abstract value of an [`Event`]: the same four cases, with the
/// menu-item identifier as a character sequence.
pub ghost enum EventView {
    /// No event occurred.
    NoEvent,
    /// The system tray icon was clicked.
    TrayClicked,
    /// The system tray icon was double-clicked.
    TrayDoubleClicked,
    /// A menu item was clicked, identified by its ID.
    MenuItemClicked(Seq<char>),
}

impl View for Event {
    type V = EventView;

    open spec fn view(&self) -> EventView {
        match self {
            Event::NoEvent => EventView::NoEvent,
            Event::TrayClicked => EventView::TrayClicked,
            Event::TrayDoubleClicked => EventView::TrayDoubleClicked,
            Event::MenuItemClicked(id) => EventView::MenuItemClicked(id@),
        }
    }
}

/// The exact mapping from one polled raw event — the native discriminant and
/// the optional identifier payload — to the decoded event or error. The
/// identifier of a menu click is echoed verbatim; a menu click without a
/// payload is a reporting failure; an unknown discriminant is reported with
/// its exact value.
pub open spec fn spec_decode(code: u32, menu_id: Option<Seq<char>>) -> Result<
    EventView,
    SystemTrayError,
> {
    if code == EVENT_CODE_NONE {
        Ok(EventView::NoEvent)
    } else if code == EVENT_CODE_TRAY_CLICKED {
        Ok(EventView::TrayClicked)
    } else if code == EVENT_CODE_TRAY_DOUBLE_CLICKED {
        Ok(EventView::TrayDoubleClicked)
    } else if code == EVENT_CODE_MENU_ITEM_CLICKED {
        match menu_id {
            Some(id) => Ok(EventView::MenuItemClicked(id)),
            None => Err(SystemTrayError::SendError),
        }
    } else {
        Err(SystemTrayError::PollEventError(code))
    }
}

} // verus!
