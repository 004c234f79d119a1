//! `<hostdev>` devices.
use vstd::prelude::*;
use crate::text::{push_str, str_eq};

verus! {

/// A `<hostdev>` element of a domain's `<devices>`.
#[derive(Debug, Clone)]
pub struct DeviceHostdev {
    pub mode: String,
    pub hostdev_type: String,
    pub managed: Option<String>,
    pub source: Option<HostdevSource>,
    pub rom: Option<HostdevRom>,
}

/// The `<source>` of a host device.
#[derive(Debug, Clone)]
pub struct HostdevSource {
    pub vendor: Option<HostdevId>,
    pub product: Option<HostdevId>,
    pub address: Option<HostdevAddress>,
}

/// A vendor or product id.
#[derive(Debug, Clone)]
pub struct HostdevId {
    pub id: String,
}

/// The `<address>` of a host device.
#[derive(Debug, Clone)]
pub struct HostdevAddress {
    pub domain: Option<String>,
    pub bus: Option<String>,
    pub slot: Option<String>,
    pub function: Option<String>,
    pub device: Option<String>,
}

/// The `<rom>` of a host device.
#[derive(Debug, Clone)]
pub struct HostdevRom {
    pub bar: Option<String>,
}

/// The label of a host device type: `usb`, `pci`, `scsi` and `mdev` in upper
/// case, any other type as it is.
pub open spec fn hostdev_type_label(t: Seq<char>) -> Seq<char> {
    if t == "usb"@ {
        "USB"@
    } else if t == "pci"@ {
        "PCI"@
    } else if t == "scsi"@ {
        "SCSI"@
    } else if t == "mdev"@ {
        "MDEV"@
    } else {
        t
    }
}

impl DeviceHostdev {
    /// `TYPE VENDOR:PRODUCT` when both ids are known, else `TYPE Host Device`.
    pub open spec fn display_name_spec(&self) -> Seq<char> {
        let label = hostdev_type_label(self.hostdev_type@);
        match self.source {
            Some(s) => match (s.vendor, s.product) {
                (Some(v), Some(p)) => label + " "@ + v.id@ + ":"@ + p.id@,
                _ => label + " Host Device"@,
            },
            None => label + " Host Device"@,
        }
    }

    pub fn display_name(&self) -> (r: String)
        ensures
            r@ == self.display_name_spec(),
    {
        let t = self.hostdev_type.as_str();
        let mut r = String::new();
        if str_eq(t, "usb") {
            push_str(&mut r, "USB");
        } else if str_eq(t, "pci") {
            push_str(&mut r, "PCI");
        } else if str_eq(t, "scsi") {
            push_str(&mut r, "SCSI");
        } else if str_eq(t, "mdev") {
            push_str(&mut r, "MDEV");
        } else {
            push_str(&mut r, t);
        }
        if let Some(source) = &self.source {
            if let (Some(vendor), Some(product)) = (&source.vendor, &source.product) {
                push_str(&mut r, " ");
                push_str(&mut r, vendor.id.as_str());
                push_str(&mut r, ":");
                push_str(&mut r, product.id.as_str());
                return r;
            }
        }
        push_str(&mut r, " Host Device");
        r
    }
}

} // verus!
