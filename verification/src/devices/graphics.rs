//! `<graphics>` devices.
use vstd::prelude::*;
use crate::text::{decimal, push_str, push_u64, str_eq, to_uppercase, upper_case};

verus! {

/// A `<graphics>` element of a domain's `<devices>`.
#[derive(Debug, Clone)]
pub struct DeviceGraphics {
    pub graphics_type: String,
    pub port: Option<i32>,
    pub autoport: Option<String>,
    pub listen: Option<String>,
    pub passwd: Option<String>,
    pub keymap: Option<String>,
}

impl DeviceGraphics {
    pub fn is_vnc(&self) -> (r: bool)
        ensures
            r == (self.graphics_type@ == "vnc"@),
    {
        str_eq(self.graphics_type.as_str(), "vnc")
    }

    pub fn is_spice(&self) -> (r: bool)
        ensures
            r == (self.graphics_type@ == "spice"@),
    {
        str_eq(self.graphics_type.as_str(), "spice")
    }

    /// The name shown for the device in the hardware list.
    pub open spec fn display_name_spec(&self) -> Seq<char> {
        upper_case(self.graphics_type@) + match self.port {
            Some(p) => if p > 0 {
                " :"@ + decimal(p as nat)
            } else {
                Seq::<char>::empty()
            },
            None => Seq::<char>::empty(),
        }
    }

    /// The type in upper case, followed by ` :PORT` when the port is positive.
    pub fn display_name(&self) -> (r: String)
        ensures
            r@ == self.display_name_spec(),
    {
        let mut r = to_uppercase(self.graphics_type.as_str());
        let ghost up = r@;
        if let Some(p) = self.port {
            if p > 0 {
                push_str(&mut r, " :");
                push_u64(&mut r, p as u64);
                assert(r@ == up + " :"@ + decimal(p as nat));
                return r;
            }
        }
        assert(r@ == up + Seq::<char>::empty());
        r
    }
}

} // verus!
