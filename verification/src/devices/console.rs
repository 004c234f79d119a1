//! `<console>` devices.
use vstd::prelude::*;
use crate::text::{decimal, push_str, push_u64};

verus! {

/// A `<console>` element of a domain's `<devices>`.
#[derive(Debug, Clone)]
pub struct DeviceConsole {
    pub console_type: String,
    pub target: Option<ConsoleTarget>,
}

/// The `<target>` of a console.
#[derive(Debug, Clone)]
pub struct ConsoleTarget {
    pub target_type: Option<String>,
    pub port: Option<String>,
}

impl DeviceConsole {
    /// The name shown for the device in the hardware list.
    pub open spec fn display_name_spec(&self, index: nat) -> Seq<char> {
        "Console "@ + decimal(index + 1)
    }

    /// `Console N`, where `N` is the one-based position `index + 1`.
    pub fn display_name(&self, index: usize) -> (r: String)
        requires
            index < usize::MAX,
        ensures
            r@ == self.display_name_spec(index as nat),
    {
        let mut r = String::new();
        push_str(&mut r, "Console ");
        push_u64(&mut r, (index + 1) as u64);
        r
    }
}

} // verus!
