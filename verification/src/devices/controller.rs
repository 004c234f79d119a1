//! `<controller>` devices.
use vstd::prelude::*;
use crate::text::{decimal, push_str, push_u64, to_uppercase, upper_case};

verus! {

/// A `<controller>` element of a domain's `<devices>`.
#[derive(Debug, Clone)]
pub struct DeviceController {
    pub controller_type: String,
    pub model: Option<String>,
    pub index: Option<u32>,
    pub ports: Option<u32>,
}

impl DeviceController {
    /// The name shown for the device in the hardware list.
    pub open spec fn display_name_spec(&self) -> Seq<char> {
        "Controller "@ + upper_case(self.controller_type@) + " "@ + decimal(
            match self.index {
                Some(i) => i as nat,
                None => 0,
            },
        )
    }

    /// `Controller TYPE N`: the type in upper case and the index (0 when absent).
    pub fn display_name(&self) -> (r: String)
        ensures
            r@ == self.display_name_spec(),
    {
        let idx: u32 = match self.index {
            Some(i) => i,
            None => 0,
        };
        let mut r = String::new();
        push_str(&mut r, "Controller ");
        let up = to_uppercase(self.controller_type.as_str());
        push_str(&mut r, up.as_str());
        push_str(&mut r, " ");
        push_u64(&mut r, idx as u64);
        r
    }
}

} // verus!
