//! `<disk>` devices.
use vstd::prelude::*;
use crate::text::{push_str, str_eq};

verus! {

/// A `<disk>` element of a domain's `<devices>`.
#[derive(Debug, Clone)]
pub struct DeviceDisk {
    pub disk_type: String,
    /// `disk` when the element has no `device` attribute.
    pub device: String,
    pub driver: Option<DiskDriver>,
    pub source: Option<DiskSource>,
    pub target: DiskTarget,
    pub readonly: Option<Empty>,
    pub address: Option<DiskAddress>,
}

/// The value `device` takes when the element leaves it out.
pub fn default_disk_device() -> (r: String)
    ensures
        r@ == "disk"@,
{
    crate::text::owned("disk")
}

/// The `<driver>` of a disk.
#[derive(Debug, Clone)]
pub struct DiskDriver {
    pub name: Option<String>,
    pub driver_type: Option<String>,
    pub cache: Option<String>,
    pub discard: Option<String>,
}

/// The `<source>` of a disk.
#[derive(Debug, Clone)]
pub struct DiskSource {
    pub file: Option<String>,
    pub dev: Option<String>,
    pub pool: Option<String>,
    pub volume: Option<String>,
}

/// The `<target>` of a disk.
#[derive(Debug, Clone)]
pub struct DiskTarget {
    pub dev: String,
    pub bus: Option<String>,
}

/// The `<address>` of a disk.
#[derive(Debug, Clone)]
pub struct DiskAddress {
    pub address_type: String,
}

/// An element without attributes or content (such as `<readonly/>`).
#[derive(Debug, Clone)]
pub struct Empty {}

/// The path a disk reads from: its source's `file`, else its source's `dev`.
pub open spec fn disk_source_path(d: DeviceDisk) -> Option<Seq<char>> {
    match d.source {
        Some(s) => match s.file {
            Some(f) => Some(f@),
            None => match s.dev {
                Some(dv) => Some(dv@),
                None => None,
            },
        },
        None => None,
    }
}

impl DeviceDisk {
    pub fn source_path(&self) -> (r: Option<&str>)
        ensures
            match r {
                Some(p) => disk_source_path(*self) == Some(p@),
                None => disk_source_path(*self) is None,
            },
    {
        match &self.source {
            Some(s) => match &s.file {
                Some(f) => Some(f.as_str()),
                None => match &s.dev {
                    Some(d) => Some(d.as_str()),
                    None => None,
                },
            },
            None => None,
        }
    }

    pub fn is_cdrom(&self) -> (r: bool)
        ensures
            r == (self.device@ == "cdrom"@),
    {
        str_eq(self.device.as_str(), "cdrom")
    }

    pub fn is_floppy(&self) -> (r: bool)
        ensures
            r == (self.device@ == "floppy"@),
    {
        str_eq(self.device.as_str(), "floppy")
    }

    /// The name shown for the device in the hardware list.
    pub open spec fn display_name_spec(&self) -> Seq<char> {
        self.device@ + " "@ + self.target.dev@ + " ("@ + match self.target.bus {
            Some(b) => b@,
            None => "unknown"@,
        } + ")"@
    }

    /// `DEVICE TARGET (BUS)`, with `unknown` for a missing bus.
    pub fn display_name(&self) -> (r: String)
        ensures
            r@ == self.display_name_spec(),
    {
        let mut r = String::new();
        push_str(&mut r, self.device.as_str());
        push_str(&mut r, " ");
        push_str(&mut r, self.target.dev.as_str());
        push_str(&mut r, " (");
        match &self.target.bus {
            Some(b) => push_str(&mut r, b.as_str()),
            None => push_str(&mut r, "unknown"),
        }
        push_str(&mut r, ")");
        r
    }
}

} // verus!
