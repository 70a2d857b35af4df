//! A thread-safe façade over a native desktop toolkit's system-tray icon.
//!
//! The library holds the verified core of the façade: validation of the
//! strings that are handed to the native side, the session lifecycle state
//! machine (configure, start, stop), and the decoding of polled tray events.
//! The surrounding process glue — the native calls themselves, the background
//! thread that drives the native event loop — lives outside the library and
//! consults the core for every decision.

pub mod error;
pub mod events;
pub mod handle;
pub mod native_str;
pub mod session;

pub use error::SystemTrayError;
pub use events::Event;
pub use handle::SafeQtAppHandle;
pub use native_str::has_nul_byte;
pub use native_str::validate_native_string;
pub use session::Menu;
pub use session::SystemTray;
