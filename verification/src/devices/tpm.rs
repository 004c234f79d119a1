//! `<tpm>` devices.
use vstd::prelude::*;
use crate::text::{owned, push_str};

verus! {

/// A `<tpm>` element of a domain's `<devices>`.
#[derive(Debug, Clone)]
pub struct DeviceTpm {
    pub model: Option<String>,
    pub backend: Option<TpmBackend>,
}

/// The `<backend>` of a TPM.
#[derive(Debug, Clone)]
pub struct TpmBackend {
    pub backend_type: String,
    pub version: Option<String>,
    pub device: Option<TpmDevice>,
}

/// The `<device>` of a TPM backend.
#[derive(Debug, Clone)]
pub struct TpmDevice {
    pub path: Option<String>,
}

impl DeviceTpm {
    /// The name shown for the device in the hardware list.
    pub open spec fn display_name_spec(&self) -> Seq<char> {
        match self.backend {
            Some(b) => match b.version {
                Some(v) => "TPM v"@ + v@,
                None => "TPM"@,
            },
            None => "TPM"@,
        }
    }

    /// `TPM vVERSION` when the backend states a version, else `TPM`.
    pub fn display_name(&self) -> (r: String)
        ensures
            r@ == self.display_name_spec(),
    {
        if let Some(backend) = &self.backend {
            if let Some(ver) = &backend.version {
                let mut r = String::new();
                push_str(&mut r, "TPM v");
                push_str(&mut r, ver.as_str());
                return r;
            }
        }
        owned("TPM")
    }
}

} // verus!
