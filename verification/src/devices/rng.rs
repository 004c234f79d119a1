//! `<rng>` devices.
use vstd::prelude::*;
use crate::text::{owned, push_str};

verus! {

/// An `<rng>` element of a domain's `<devices>`.
#[derive(Debug, Clone)]
pub struct DeviceRng {
    pub model: String,
    pub backend: Option<RngBackend>,
}

/// The `<backend>` of a random number generator.
#[derive(Debug, Clone)]
pub struct RngBackend {
    pub model: String,
    pub device: Option<String>,
}

impl DeviceRng {
    /// The name shown for the device in the hardware list.
    pub open spec fn display_name_spec(&self) -> Seq<char> {
        match self.backend {
            Some(b) => match b.device {
                Some(d) => "RNG "@ + d@,
                None => "RNG"@,
            },
            None => "RNG"@,
        }
    }

    /// `RNG DEVICE` when the backend names a device, else `RNG`.
    pub fn display_name(&self) -> (r: String)
        ensures
            r@ == self.display_name_spec(),
    {
        if let Some(backend) = &self.backend {
            if let Some(dev) = &backend.device {
                let mut r = String::new();
                push_str(&mut r, "RNG ");
                push_str(&mut r, dev.as_str());
                return r;
            }
        }
        owned("RNG")
    }
}

} // verus!
