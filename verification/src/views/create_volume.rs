//! The "Create Volume" dialog and the volume definition it sends.
use vstd::prelude::*;
use crate::backend::BackendCommand;
use crate::state::CreateVolumeState;
use crate::text::{chars_of, decimal, owned, push_chars, push_str, push_u64, trim, trim_chars};

verus! {

/// The disk image formats the dialog offers.
pub fn volume_formats() -> (r: Vec<&'static str>)
    ensures
        r@.len() == 5,
        r@[0]@ == "qcow2"@,
        r@[1]@ == "raw"@,
        r@[2]@ == "vmdk"@,
        r@[3]@ == "vpc"@,
        r@[4]@ == "qed"@,
{
    vec!["qcow2", "raw", "vmdk", "vpc", "qed"]
}

/// The number of bytes in `gib` gibibytes.
pub open spec fn gib_bytes(gib: u64) -> nat {
    (gib * 1024 * 1024 * 1024) as nat
}

/// The definition of a volume named `name` of `cap_bytes` bytes in the
/// format `format`.
pub open spec fn volume_xml(name: Seq<char>, cap_bytes: nat, format: Seq<char>) -> Seq<char> {
    "<volume>\n  <name>"@ + name + "</name>\n  <capacity unit='bytes'>"@ + decimal(cap_bytes)
        + "</capacity>\n  <target>\n    <format type='"@ + format + "'/>\n  </target>\n</volume>"@
}

/// "Create": the requests that create the volume the dialog describes in
/// its pool and list the pool's volumes again; none while the name is
/// blank (the button is disabled then).
pub fn create_volume_commands(v: &CreateVolumeState) -> (r: Option<(BackendCommand, BackendCommand)>)
    requires
        v.capacity_gib * 1024 * 1024 * 1024 <= u64::MAX,
    ensures
        trim(v.name@).len() == 0 <==> r is None,
        r matches Some((c, l)) ==> {
            &&& c matches BackendCommand::CreateVolume(u, p, x) && u@ == v.uri@ && p@ == v.pool_name@
                && x@ == volume_xml(trim(v.name@), gib_bytes(v.capacity_gib), v.format@)
            &&& l matches BackendCommand::ListVolumes(u, p) && u@ == v.uri@ && p@ == v.pool_name@
        },
{
    let name = trim_chars(&chars_of(v.name.as_str()));
    if name.len() == 0 {
        return None;
    }
    let cap_bytes = v.capacity_gib * 1024 * 1024 * 1024;
    let mut x = owned("<volume>\n  <name>");
    push_chars(&mut x, &name);
    push_str(&mut x, "</name>\n  <capacity unit='bytes'>");
    push_u64(&mut x, cap_bytes);
    push_str(&mut x, "</capacity>\n  <target>\n    <format type='");
    push_str(&mut x, v.format.as_str());
    push_str(&mut x, "'/>\n  </target>\n</volume>");
    Some((
        BackendCommand::CreateVolume(v.uri.clone(), v.pool_name.clone(), x),
        BackendCommand::ListVolumes(v.uri.clone(), v.pool_name.clone()),
    ))
}

} // verus!
