//! The shared reference to the native application+tray instance.
//!
//! The native toolkit hands out one opaque handle per session. The session
//! core never looks inside it: it only carries the reference, hands it back
//! to the native side on every call, and decides at teardown whether a
//! cleanup call is owed (only a non-null reference is released). The handle
//! is therefore modelled as a plain address value, which makes it trivially
//! transferable between the configuring thread and the background loop.

use vstd::prelude::*;

verus! {

/// A thread-transferable wrapper around the opaque native handle reference,
/// held as a plain address. The address `0` stands for the null reference.
#[derive(Debug, Clone, Copy, PartialEq, Eq)]
pub struct SafeQtAppHandle {
    addr: usize,
}

impl SafeQtAppHandle {
    /// The address carried by this handle.
    pub closed spec fn addr_spec(&self) -> usize {
        self.addr
    }

    /// Wraps the address of a native handle reference.
    pub fn new(addr: usize) -> (r: Self)
        ensures
            r.addr_spec() == addr,
    {
        SafeQtAppHandle { addr }
    }

    /// Returns the wrapped address, to be handed back to the native side.
    pub fn as_ptr(&self) -> (r: usize)
        ensures
            r == self.addr_spec(),
    {
        self.addr
    }

    /// True when the handle is the null reference; no cleanup call may be
    /// made through a null handle at teardown.
    pub fn is_null(&self) -> (r: bool)
        ensures
            r == (self.addr_spec() == 0),
    {
        self.addr == 0
    }
}

} // verus!
