//! `<filesystem>` devices.
use vstd::prelude::*;
use crate::text::{owned, push_str};

verus! {

/// A `<filesystem>` element of a domain's `<devices>`.
#[derive(Debug, Clone)]
pub struct DeviceFilesystem {
    pub fs_type: Option<String>,
    pub accessmode: Option<String>,
    pub model: Option<String>,
    pub source: Option<FilesystemSource>,
    pub target: Option<FilesystemTarget>,
    pub driver: Option<FilesystemDriver>,
}

/// The `<source>` of a filesystem.
#[derive(Debug, Clone)]
pub struct FilesystemSource {
    pub dir: Option<String>,
    pub name: Option<String>,
    pub socket: Option<String>,
}

/// The `<target>` of a filesystem.
#[derive(Debug, Clone)]
pub struct FilesystemTarget {
    pub dir: String,
}

/// The `<driver>` of a filesystem.
#[derive(Debug, Clone)]
pub struct FilesystemDriver {
    pub driver_type: Option<String>,
    pub wrpolicy: Option<String>,
}

impl DeviceFilesystem {
    /// The name shown for the device in the hardware list.
    pub open spec fn display_name_spec(&self) -> Seq<char> {
        match self.target {
            Some(t) => "Filesystem "@ + t.dir@,
            None => "Filesystem"@,
        }
    }

    /// `Filesystem DIR` for the target directory, or `Filesystem` alone.
    pub fn display_name(&self) -> (r: String)
        ensures
            r@ == self.display_name_spec(),
    {
        match &self.target {
            Some(t) => {
                let mut r = String::new();
                push_str(&mut r, "Filesystem ");
                push_str(&mut r, t.dir.as_str());
                r
            },
            None => owned("Filesystem"),
        }
    }
}

} // verus!
