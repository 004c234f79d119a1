//! `<input>` devices.
use vstd::prelude::*;
use crate::text::{owned, str_eq};

verus! {

/// An `<input>` element of a domain's `<devices>`.
#[derive(Debug, Clone)]
pub struct DeviceInput {
    pub input_type: String,
    pub bus: Option<String>,
}

/// The label of an input type: the four known types capitalised, any other
/// type as it is.
pub open spec fn input_label(t: Seq<char>) -> Seq<char> {
    if t == "tablet"@ {
        "Tablet"@
    } else if t == "mouse"@ {
        "Mouse"@
    } else if t == "keyboard"@ {
        "Keyboard"@
    } else if t == "evdev"@ {
        "EvDev"@
    } else {
        t
    }
}

impl DeviceInput {
    /// The name shown for the device in the hardware list.
    pub open spec fn display_name_spec(&self) -> Seq<char> {
        input_label(self.input_type@)
    }

    pub fn display_name(&self) -> (r: String)
        ensures
            r@ == self.display_name_spec(),
    {
        let t = self.input_type.as_str();
        if str_eq(t, "tablet") {
            owned("Tablet")
        } else if str_eq(t, "mouse") {
            owned("Mouse")
        } else if str_eq(t, "keyboard") {
            owned("Keyboard")
        } else if str_eq(t, "evdev") {
            owned("EvDev")
        } else {
            owned(t)
        }
    }
}

} // verus!
