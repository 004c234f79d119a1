//! The library's error type.
use vstd::prelude::*;
use crate::text::{owned, push_str};

verus! {

/// What went wrong, with the message of the failing layer where there is one.
#[derive(Debug, Clone)]
pub enum VirtError {
    /// An error reported by libvirt.
    Libvirt(String),
    /// A domain definition that could not be read.
    Xml(String),
    InvalidUri(String),
    NotConnected,
    ConnectionFailed(String),
    Other(String),
}

/// The text shown for an error.
pub open spec fn error_message(e: VirtError) -> Seq<char> {
    match e {
        VirtError::Libvirt(m) => "libvirt error: "@ + m@,
        VirtError::Xml(m) => "XML parsing error: "@ + m@,
        VirtError::InvalidUri(m) => "invalid URI: "@ + m@,
        VirtError::NotConnected => "not connected"@,
        VirtError::ConnectionFailed(m) => "connection failed: "@ + m@,
        VirtError::Other(m) => m@,
    }
}

impl VirtError {
    /// The text shown for this error.
    pub fn message(&self) -> (r: String)
        ensures
            r@ == error_message(*self),
    {
        let (prefix, m) = match self {
            VirtError::Libvirt(m) => ("libvirt error: ", m.as_str()),
            VirtError::Xml(m) => ("XML parsing error: ", m.as_str()),
            VirtError::InvalidUri(m) => ("invalid URI: ", m.as_str()),
            VirtError::NotConnected => ("not connected", ""),
            VirtError::ConnectionFailed(m) => ("connection failed: ", m.as_str()),
            VirtError::Other(m) => ("", m.as_str()),
        };
        let mut r = owned(prefix);
        push_str(&mut r, m);
        proof {
            reveal_strlit("");
        }
        r
    }
}

} // verus!
