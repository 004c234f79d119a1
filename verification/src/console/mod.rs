//! Consoles of a domain: the graphical display over VNC, the serial console
//! and the SSH tunnel to a remote display.
pub mod serial;
pub mod ssh_tunnel;
pub mod vnc;

use vstd::prelude::*;

verus! {

/// Where a console connection stands.
#[derive(Debug, Clone, PartialEq, Eq)]
pub enum ConsoleStatus {
    Disconnected,
    Connecting,
    Connected,
    Error(String),
}

impl ConsoleStatus {
    /// Whether the console is connected.
    pub fn is_connected(&self) -> (r: bool)
        ensures
            r == (*self is Connected),
    {
        match self {
            ConsoleStatus::Connected => true,
            _ => false,
        }
    }
}

} // verus!
