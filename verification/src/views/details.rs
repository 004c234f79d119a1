//! The details tab of a VM window: the list of its hardware.
use vstd::prelude::*;
use crate::devices::{controller::DeviceController, disk::DeviceDisk, filesystem::DeviceFilesystem, graphics::DeviceGraphics, hostdev::DeviceHostdev, input::DeviceInput, interface::DeviceInterface, panic_dev::DevicePanic, redirdev::DeviceRedirdev, rng::DeviceRng, serial::DeviceSerial, smartcard::DeviceSmartcard, sound::DeviceSound, tpm::DeviceTpm, video::DeviceVideo, vsock::DeviceVsock, watchdog::DeviceWatchdog};
use crate::domain::{DevicesSection, Guest};
use crate::state::HwListItem;
use crate::text::{decimal, owned, push_str, push_u64};

verus! {

/// The texts and entries of a hardware list.
pub open spec fn items_view(v: Seq<(String, HwListItem)>) -> Seq<(Seq<char>, HwListItem)> {
    v.map_values(|p: (String, HwListItem)| (p.0@, p.1))
}

/// The entries every machine has.
pub open spec fn fixed_hw_items() -> Seq<(Seq<char>, HwListItem)> {
    seq![
        ("📊 Overview"@, HwListItem::Overview),
        ("📈 Performance"@, HwListItem::Performance),
        ("🖥 CPUs"@, HwListItem::Cpu),
        ("💾 Memory"@, HwListItem::Memory),
        ("🔧 Boot Options"@, HwListItem::Boot),
    ]
}

/// The entries of the disks.
pub open spec fn disks_items(s: Seq<DeviceDisk>) -> Seq<(Seq<char>, HwListItem)> {
    Seq::new(s.len(), |i: int| ("💿 "@ + s[i].display_name_spec(), HwListItem::Disk(i as usize)))
}

/// The entries of the interfaces.
pub open spec fn interfaces_items(s: Seq<DeviceInterface>) -> Seq<(Seq<char>, HwListItem)> {
    Seq::new(s.len(), |i: int| ("🌐 "@ + s[i].display_name_spec(), HwListItem::Nic(i as usize)))
}

/// The entries of the graphics.
pub open spec fn graphics_items(s: Seq<DeviceGraphics>) -> Seq<(Seq<char>, HwListItem)> {
    Seq::new(s.len(), |i: int| ("🖵 "@ + s[i].display_name_spec(), HwListItem::Graphics(i as usize)))
}

/// The entries of the videos.
pub open spec fn videos_items(s: Seq<DeviceVideo>) -> Seq<(Seq<char>, HwListItem)> {
    Seq::new(s.len(), |i: int| ("🎬 "@ + s[i].display_name_spec(), HwListItem::Video(i as usize)))
}

/// The entries of the sounds.
pub open spec fn sounds_items(s: Seq<DeviceSound>) -> Seq<(Seq<char>, HwListItem)> {
    Seq::new(s.len(), |i: int| ("🔊 "@ + s[i].display_name_spec(), HwListItem::Sound(i as usize)))
}

/// The entries of the inputs.
pub open spec fn inputs_items(s: Seq<DeviceInput>) -> Seq<(Seq<char>, HwListItem)> {
    Seq::new(s.len(), |i: int| ("🖱 "@ + s[i].display_name_spec(), HwListItem::Input(i as usize)))
}

/// The entries of the serials.
pub open spec fn serials_items(s: Seq<DeviceSerial>) -> Seq<(Seq<char>, HwListItem)> {
    Seq::new(s.len(), |i: int| ("📟 Serial "@ + decimal((i + 1) as nat), HwListItem::Char(i as usize)))
}

/// The entries of the controllers.
pub open spec fn controllers_items(s: Seq<DeviceController>) -> Seq<(Seq<char>, HwListItem)> {
    Seq::new(s.len(), |i: int| ("🔌 "@ + s[i].display_name_spec(), HwListItem::Controller(i as usize)))
}

/// The entries of the hostdevs.
pub open spec fn hostdevs_items(s: Seq<DeviceHostdev>) -> Seq<(Seq<char>, HwListItem)> {
    Seq::new(s.len(), |i: int| ("🔗 "@ + s[i].display_name_spec(), HwListItem::Hostdev(i as usize)))
}

/// The entries of the watchdogs.
pub open spec fn watchdogs_items(s: Seq<DeviceWatchdog>) -> Seq<(Seq<char>, HwListItem)> {
    Seq::new(s.len(), |i: int| ("⏱ "@ + s[i].display_name_spec(), HwListItem::Watchdog(i as usize)))
}

/// The entries of the filesystems.
pub open spec fn filesystems_items(s: Seq<DeviceFilesystem>) -> Seq<(Seq<char>, HwListItem)> {
    Seq::new(s.len(), |i: int| ("📁 "@ + s[i].display_name_spec(), HwListItem::Filesystem(i as usize)))
}

/// The entries of the tpms.
pub open spec fn tpms_items(s: Seq<DeviceTpm>) -> Seq<(Seq<char>, HwListItem)> {
    Seq::new(s.len(), |i: int| ("🔐 "@ + s[i].display_name_spec(), HwListItem::Tpm(i as usize)))
}

/// The entries of the rngs.
pub open spec fn rngs_items(s: Seq<DeviceRng>) -> Seq<(Seq<char>, HwListItem)> {
    Seq::new(s.len(), |i: int| ("🎲 "@ + s[i].display_name_spec(), HwListItem::Rng(i as usize)))
}

/// The entries of the vsocks.
pub open spec fn vsocks_items(s: Seq<DeviceVsock>) -> Seq<(Seq<char>, HwListItem)> {
    Seq::new(s.len(), |i: int| ("🔌 VSOCK"@, HwListItem::Vsock(i as usize)))
}

/// The entries of the redirdevs.
pub open spec fn redirdevs_items(s: Seq<DeviceRedirdev>) -> Seq<(Seq<char>, HwListItem)> {
    Seq::new(s.len(), |i: int| ("↪ "@ + s[i].display_name_spec(i as nat), HwListItem::Redirdev(i as usize)))
}

/// The entries of the smartcards.
pub open spec fn smartcards_items(s: Seq<DeviceSmartcard>) -> Seq<(Seq<char>, HwListItem)> {
    Seq::new(s.len(), |i: int| ("💳 "@ + s[i].display_name_spec(), HwListItem::Smartcard(i as usize)))
}

/// The entries of the panics.
pub open spec fn panics_items(s: Seq<DevicePanic>) -> Seq<(Seq<char>, HwListItem)> {
    Seq::new(s.len(), |i: int| ("⚠ "@ + s[i].display_name_spec(), HwListItem::Panic(i as usize)))
}

/// The entries of the devices, kind after kind.
pub open spec fn device_items(d: DevicesSection) -> Seq<(Seq<char>, HwListItem)> {
    disks_items(d.disks@)
        + interfaces_items(d.interfaces@)
        + graphics_items(d.graphics@)
        + videos_items(d.videos@)
        + sounds_items(d.sounds@)
        + inputs_items(d.inputs@)
        + serials_items(d.serials@)
        + controllers_items(d.controllers@)
        + hostdevs_items(d.hostdevs@)
        + watchdogs_items(d.watchdogs@)
        + filesystems_items(d.filesystems@)
        + tpms_items(d.tpms@)
        + rngs_items(d.rngs@)
        + vsocks_items(d.vsocks@)
        + redirdevs_items(d.redirdevs@)
        + smartcards_items(d.smartcards@)
        + panics_items(d.panics@)
}

/// The hardware list of a machine whose definition could be read into
/// `guest`; only the fixed entries otherwise.
pub open spec fn hw_items_spec(guest: Option<Guest>) -> Seq<(Seq<char>, HwListItem)> {
    match guest {
        Some(g) => match g.devices {
            Some(d) => fixed_hw_items() + device_items(d),
            None => fixed_hw_items(),
        },
        None => fixed_hw_items(),
    }
}

fn push_disks_items(items: &mut Vec<(String, HwListItem)>, v: &Vec<DeviceDisk>)
    ensures
        items_view(final(items)@) == items_view(old(items)@) + disks_items(v@),
{
    let ghost start = items_view(items@);
    let mut i: usize = 0;
    while i < v.len()
        invariant
            i <= v@.len(),
            items_view(items@) == start + disks_items(v@).take(i as int),
        decreases v@.len() - i,
    {
        let mut label = owned("💿 ");
            push_str(&mut label, v[i].display_name().as_str());
        let ghost before = items@;
        items.push((label, HwListItem::Disk(i)));
        proof {
            assert(disks_items(v@).take(i + 1) =~= disks_items(v@).take(i as int).push(disks_items(v@)[i as int]));
            assert(items_view(items@) =~= items_view(before).push((disks_items(v@)[i as int])));
        }
        i = i + 1;
    }
    proof {
        assert(disks_items(v@).take(i as int) =~= disks_items(v@));
    }
}

fn push_interfaces_items(items: &mut Vec<(String, HwListItem)>, v: &Vec<DeviceInterface>)
    ensures
        items_view(final(items)@) == items_view(old(items)@) + interfaces_items(v@),
{
    let ghost start = items_view(items@);
    let mut i: usize = 0;
    while i < v.len()
        invariant
            i <= v@.len(),
            items_view(items@) == start + interfaces_items(v@).take(i as int),
        decreases v@.len() - i,
    {
        let mut label = owned("🌐 ");
            push_str(&mut label, v[i].display_name().as_str());
        let ghost before = items@;
        items.push((label, HwListItem::Nic(i)));
        proof {
            assert(interfaces_items(v@).take(i + 1) =~= interfaces_items(v@).take(i as int).push(interfaces_items(v@)[i as int]));
            assert(items_view(items@) =~= items_view(before).push((interfaces_items(v@)[i as int])));
        }
        i = i + 1;
    }
    proof {
        assert(interfaces_items(v@).take(i as int) =~= interfaces_items(v@));
    }
}

fn push_graphics_items(items: &mut Vec<(String, HwListItem)>, v: &Vec<DeviceGraphics>)
    ensures
        items_view(final(items)@) == items_view(old(items)@) + graphics_items(v@),
{
    let ghost start = items_view(items@);
    let mut i: usize = 0;
    while i < v.len()
        invariant
            i <= v@.len(),
            items_view(items@) == start + graphics_items(v@).take(i as int),
        decreases v@.len() - i,
    {
        let mut label = owned("🖵 ");
            push_str(&mut label, v[i].display_name().as_str());
        let ghost before = items@;
        items.push((label, HwListItem::Graphics(i)));
        proof {
            assert(graphics_items(v@).take(i + 1) =~= graphics_items(v@).take(i as int).push(graphics_items(v@)[i as int]));
            assert(items_view(items@) =~= items_view(before).push((graphics_items(v@)[i as int])));
        }
        i = i + 1;
    }
    proof {
        assert(graphics_items(v@).take(i as int) =~= graphics_items(v@));
    }
}

fn push_videos_items(items: &mut Vec<(String, HwListItem)>, v: &Vec<DeviceVideo>)
    ensures
        items_view(final(items)@) == items_view(old(items)@) + videos_items(v@),
{
    let ghost start = items_view(items@);
    let mut i: usize = 0;
    while i < v.len()
        invariant
            i <= v@.len(),
            items_view(items@) == start + videos_items(v@).take(i as int),
        decreases v@.len() - i,
    {
        let mut label = owned("🎬 ");
            push_str(&mut label, v[i].display_name().as_str());
        let ghost before = items@;
        items.push((label, HwListItem::Video(i)));
        proof {
            assert(videos_items(v@).take(i + 1) =~= videos_items(v@).take(i as int).push(videos_items(v@)[i as int]));
            assert(items_view(items@) =~= items_view(before).push((videos_items(v@)[i as int])));
        }
        i = i + 1;
    }
    proof {
        assert(videos_items(v@).take(i as int) =~= videos_items(v@));
    }
}

fn push_sounds_items(items: &mut Vec<(String, HwListItem)>, v: &Vec<DeviceSound>)
    ensures
        items_view(final(items)@) == items_view(old(items)@) + sounds_items(v@),
{
    let ghost start = items_view(items@);
    let mut i: usize = 0;
    while i < v.len()
        invariant
            i <= v@.len(),
            items_view(items@) == start + sounds_items(v@).take(i as int),
        decreases v@.len() - i,
    {
        let mut label = owned("🔊 ");
            push_str(&mut label, v[i].display_name().as_str());
        let ghost before = items@;
        items.push((label, HwListItem::Sound(i)));
        proof {
            assert(sounds_items(v@).take(i + 1) =~= sounds_items(v@).take(i as int).push(sounds_items(v@)[i as int]));
            assert(items_view(items@) =~= items_view(before).push((sounds_items(v@)[i as int])));
        }
        i = i + 1;
    }
    proof {
        assert(sounds_items(v@).take(i as int) =~= sounds_items(v@));
    }
}

fn push_inputs_items(items: &mut Vec<(String, HwListItem)>, v: &Vec<DeviceInput>)
    ensures
        items_view(final(items)@) == items_view(old(items)@) + inputs_items(v@),
{
    let ghost start = items_view(items@);
    let mut i: usize = 0;
    while i < v.len()
        invariant
            i <= v@.len(),
            items_view(items@) == start + inputs_items(v@).take(i as int),
        decreases v@.len() - i,
    {
        let mut label = owned("🖱 ");
            push_str(&mut label, v[i].display_name().as_str());
        let ghost before = items@;
        items.push((label, HwListItem::Input(i)));
        proof {
            assert(inputs_items(v@).take(i + 1) =~= inputs_items(v@).take(i as int).push(inputs_items(v@)[i as int]));
            assert(items_view(items@) =~= items_view(before).push((inputs_items(v@)[i as int])));
        }
        i = i + 1;
    }
    proof {
        assert(inputs_items(v@).take(i as int) =~= inputs_items(v@));
    }
}

fn push_serials_items(items: &mut Vec<(String, HwListItem)>, v: &Vec<DeviceSerial>)
    ensures
        items_view(final(items)@) == items_view(old(items)@) + serials_items(v@),
{
    let ghost start = items_view(items@);
    let mut i: usize = 0;
    while i < v.len()
        invariant
            i <= v@.len(),
            items_view(items@) == start + serials_items(v@).take(i as int),
        decreases v@.len() - i,
    {
        let mut label = owned("📟 Serial ");
            push_u64(&mut label, i as u64 + 1);
        let ghost before = items@;
        items.push((label, HwListItem::Char(i)));
        proof {
            assert(serials_items(v@).take(i + 1) =~= serials_items(v@).take(i as int).push(serials_items(v@)[i as int]));
            assert(items_view(items@) =~= items_view(before).push((serials_items(v@)[i as int])));
        }
        i = i + 1;
    }
    proof {
        assert(serials_items(v@).take(i as int) =~= serials_items(v@));
    }
}

fn push_controllers_items(items: &mut Vec<(String, HwListItem)>, v: &Vec<DeviceController>)
    ensures
        items_view(final(items)@) == items_view(old(items)@) + controllers_items(v@),
{
    let ghost start = items_view(items@);
    let mut i: usize = 0;
    while i < v.len()
        invariant
            i <= v@.len(),
            items_view(items@) == start + controllers_items(v@).take(i as int),
        decreases v@.len() - i,
    {
        let mut label = owned("🔌 ");
            push_str(&mut label, v[i].display_name().as_str());
        let ghost before = items@;
        items.push((label, HwListItem::Controller(i)));
        proof {
            assert(controllers_items(v@).take(i + 1) =~= controllers_items(v@).take(i as int).push(controllers_items(v@)[i as int]));
            assert(items_view(items@) =~= items_view(before).push((controllers_items(v@)[i as int])));
        }
        i = i + 1;
    }
    proof {
        assert(controllers_items(v@).take(i as int) =~= controllers_items(v@));
    }
}

fn push_hostdevs_items(items: &mut Vec<(String, HwListItem)>, v: &Vec<DeviceHostdev>)
    ensures
        items_view(final(items)@) == items_view(old(items)@) + hostdevs_items(v@),
{
    let ghost start = items_view(items@);
    let mut i: usize = 0;
    while i < v.len()
        invariant
            i <= v@.len(),
            items_view(items@) == start + hostdevs_items(v@).take(i as int),
        decreases v@.len() - i,
    {
        let mut label = owned("🔗 ");
            push_str(&mut label, v[i].display_name().as_str());
        let ghost before = items@;
        items.push((label, HwListItem::Hostdev(i)));
        proof {
            assert(hostdevs_items(v@).take(i + 1) =~= hostdevs_items(v@).take(i as int).push(hostdevs_items(v@)[i as int]));
            assert(items_view(items@) =~= items_view(before).push((hostdevs_items(v@)[i as int])));
        }
        i = i + 1;
    }
    proof {
        assert(hostdevs_items(v@).take(i as int) =~= hostdevs_items(v@));
    }
}

fn push_watchdogs_items(items: &mut Vec<(String, HwListItem)>, v: &Vec<DeviceWatchdog>)
    ensures
        items_view(final(items)@) == items_view(old(items)@) + watchdogs_items(v@),
{
    let ghost start = items_view(items@);
    let mut i: usize = 0;
    while i < v.len()
        invariant
            i <= v@.len(),
            items_view(items@) == start + watchdogs_items(v@).take(i as int),
        decreases v@.len() - i,
    {
        let mut label = owned("⏱ ");
            push_str(&mut label, v[i].display_name().as_str());
        let ghost before = items@;
        items.push((label, HwListItem::Watchdog(i)));
        proof {
            assert(watchdogs_items(v@).take(i + 1) =~= watchdogs_items(v@).take(i as int).push(watchdogs_items(v@)[i as int]));
            assert(items_view(items@) =~= items_view(before).push((watchdogs_items(v@)[i as int])));
        }
        i = i + 1;
    }
    proof {
        assert(watchdogs_items(v@).take(i as int) =~= watchdogs_items(v@));
    }
}

fn push_filesystems_items(items: &mut Vec<(String, HwListItem)>, v: &Vec<DeviceFilesystem>)
    ensures
        items_view(final(items)@) == items_view(old(items)@) + filesystems_items(v@),
{
    let ghost start = items_view(items@);
    let mut i: usize = 0;
    while i < v.len()
        invariant
            i <= v@.len(),
            items_view(items@) == start + filesystems_items(v@).take(i as int),
        decreases v@.len() - i,
    {
        let mut label = owned("📁 ");
            push_str(&mut label, v[i].display_name().as_str());
        let ghost before = items@;
        items.push((label, HwListItem::Filesystem(i)));
        proof {
            assert(filesystems_items(v@).take(i + 1) =~= filesystems_items(v@).take(i as int).push(filesystems_items(v@)[i as int]));
            assert(items_view(items@) =~= items_view(before).push((filesystems_items(v@)[i as int])));
        }
        i = i + 1;
    }
    proof {
        assert(filesystems_items(v@).take(i as int) =~= filesystems_items(v@));
    }
}

fn push_tpms_items(items: &mut Vec<(String, HwListItem)>, v: &Vec<DeviceTpm>)
    ensures
        items_view(final(items)@) == items_view(old(items)@) + tpms_items(v@),
{
    let ghost start = items_view(items@);
    let mut i: usize = 0;
    while i < v.len()
        invariant
            i <= v@.len(),
            items_view(items@) == start + tpms_items(v@).take(i as int),
        decreases v@.len() - i,
    {
        let mut label = owned("🔐 ");
            push_str(&mut label, v[i].display_name().as_str());
        let ghost before = items@;
        items.push((label, HwListItem::Tpm(i)));
        proof {
            assert(tpms_items(v@).take(i + 1) =~= tpms_items(v@).take(i as int).push(tpms_items(v@)[i as int]));
            assert(items_view(items@) =~= items_view(before).push((tpms_items(v@)[i as int])));
        }
        i = i + 1;
    }
    proof {
        assert(tpms_items(v@).take(i as int) =~= tpms_items(v@));
    }
}

fn push_rngs_items(items: &mut Vec<(String, HwListItem)>, v: &Vec<DeviceRng>)
    ensures
        items_view(final(items)@) == items_view(old(items)@) + rngs_items(v@),
{
    let ghost start = items_view(items@);
    let mut i: usize = 0;
    while i < v.len()
        invariant
            i <= v@.len(),
            items_view(items@) == start + rngs_items(v@).take(i as int),
        decreases v@.len() - i,
    {
        let mut label = owned("🎲 ");
            push_str(&mut label, v[i].display_name().as_str());
        let ghost before = items@;
        items.push((label, HwListItem::Rng(i)));
        proof {
            assert(rngs_items(v@).take(i + 1) =~= rngs_items(v@).take(i as int).push(rngs_items(v@)[i as int]));
            assert(items_view(items@) =~= items_view(before).push((rngs_items(v@)[i as int])));
        }
        i = i + 1;
    }
    proof {
        assert(rngs_items(v@).take(i as int) =~= rngs_items(v@));
    }
}

fn push_vsocks_items(items: &mut Vec<(String, HwListItem)>, v: &Vec<DeviceVsock>)
    ensures
        items_view(final(items)@) == items_view(old(items)@) + vsocks_items(v@),
{
    let ghost start = items_view(items@);
    let mut i: usize = 0;
    while i < v.len()
        invariant
            i <= v@.len(),
            items_view(items@) == start + vsocks_items(v@).take(i as int),
        decreases v@.len() - i,
    {
        let label = owned("🔌 VSOCK");
        let ghost before = items@;
        items.push((label, HwListItem::Vsock(i)));
        proof {
            assert(vsocks_items(v@).take(i + 1) =~= vsocks_items(v@).take(i as int).push(vsocks_items(v@)[i as int]));
            assert(items_view(items@) =~= items_view(before).push((vsocks_items(v@)[i as int])));
        }
        i = i + 1;
    }
    proof {
        assert(vsocks_items(v@).take(i as int) =~= vsocks_items(v@));
    }
}

fn push_redirdevs_items(items: &mut Vec<(String, HwListItem)>, v: &Vec<DeviceRedirdev>)
    ensures
        items_view(final(items)@) == items_view(old(items)@) + redirdevs_items(v@),
{
    let ghost start = items_view(items@);
    let mut i: usize = 0;
    while i < v.len()
        invariant
            i <= v@.len(),
            items_view(items@) == start + redirdevs_items(v@).take(i as int),
        decreases v@.len() - i,
    {
        let mut label = owned("↪ ");
            push_str(&mut label, v[i].display_name(i).as_str());
        let ghost before = items@;
        items.push((label, HwListItem::Redirdev(i)));
        proof {
            assert(redirdevs_items(v@).take(i + 1) =~= redirdevs_items(v@).take(i as int).push(redirdevs_items(v@)[i as int]));
            assert(items_view(items@) =~= items_view(before).push((redirdevs_items(v@)[i as int])));
        }
        i = i + 1;
    }
    proof {
        assert(redirdevs_items(v@).take(i as int) =~= redirdevs_items(v@));
    }
}

fn push_smartcards_items(items: &mut Vec<(String, HwListItem)>, v: &Vec<DeviceSmartcard>)
    ensures
        items_view(final(items)@) == items_view(old(items)@) + smartcards_items(v@),
{
    let ghost start = items_view(items@);
    let mut i: usize = 0;
    while i < v.len()
        invariant
            i <= v@.len(),
            items_view(items@) == start + smartcards_items(v@).take(i as int),
        decreases v@.len() - i,
    {
        let mut label = owned("💳 ");
            push_str(&mut label, v[i].display_name().as_str());
        let ghost before = items@;
        items.push((label, HwListItem::Smartcard(i)));
        proof {
            assert(smartcards_items(v@).take(i + 1) =~= smartcards_items(v@).take(i as int).push(smartcards_items(v@)[i as int]));
            assert(items_view(items@) =~= items_view(before).push((smartcards_items(v@)[i as int])));
        }
        i = i + 1;
    }
    proof {
        assert(smartcards_items(v@).take(i as int) =~= smartcards_items(v@));
    }
}

fn push_panics_items(items: &mut Vec<(String, HwListItem)>, v: &Vec<DevicePanic>)
    ensures
        items_view(final(items)@) == items_view(old(items)@) + panics_items(v@),
{
    let ghost start = items_view(items@);
    let mut i: usize = 0;
    while i < v.len()
        invariant
            i <= v@.len(),
            items_view(items@) == start + panics_items(v@).take(i as int),
        decreases v@.len() - i,
    {
        let mut label = owned("⚠ ");
            push_str(&mut label, v[i].display_name().as_str());
        let ghost before = items@;
        items.push((label, HwListItem::Panic(i)));
        proof {
            assert(panics_items(v@).take(i + 1) =~= panics_items(v@).take(i as int).push(panics_items(v@)[i as int]));
            assert(items_view(items@) =~= items_view(before).push((panics_items(v@)[i as int])));
        }
        i = i + 1;
    }
    proof {
        assert(panics_items(v@).take(i as int) =~= panics_items(v@));
    }
}

/// The hardware list of the details tab: the fixed entries, then one entry
/// per device, each labelled with an icon and the device's name.
pub fn build_hw_items(guest: Option<&Guest>) -> (r: Vec<(String, HwListItem)>)
    ensures
        items_view(r@) == hw_items_spec(match guest {
            Some(g) => Some(*g),
            None => None,
        }),
{
    let mut items: Vec<(String, HwListItem)> = vec![
        (owned("📊 Overview"), HwListItem::Overview),
        (owned("📈 Performance"), HwListItem::Performance),
        (owned("🖥 CPUs"), HwListItem::Cpu),
        (owned("💾 Memory"), HwListItem::Memory),
        (owned("🔧 Boot Options"), HwListItem::Boot),
    ];
    assert(items_view(items@) =~= fixed_hw_items());
    match guest {
        Some(g) => match &g.devices {
            Some(d) => {
                push_disks_items(&mut items, &d.disks);
                push_interfaces_items(&mut items, &d.interfaces);
                push_graphics_items(&mut items, &d.graphics);
                push_videos_items(&mut items, &d.videos);
                push_sounds_items(&mut items, &d.sounds);
                push_inputs_items(&mut items, &d.inputs);
                push_serials_items(&mut items, &d.serials);
                push_controllers_items(&mut items, &d.controllers);
                push_hostdevs_items(&mut items, &d.hostdevs);
                push_watchdogs_items(&mut items, &d.watchdogs);
                push_filesystems_items(&mut items, &d.filesystems);
                push_tpms_items(&mut items, &d.tpms);
                push_rngs_items(&mut items, &d.rngs);
                push_vsocks_items(&mut items, &d.vsocks);
                push_redirdevs_items(&mut items, &d.redirdevs);
                push_smartcards_items(&mut items, &d.smartcards);
                push_panics_items(&mut items, &d.panics);
                proof {
                    assert(items_view(items@) =~= fixed_hw_items() + device_items(*d));
                }
            },
            None => {},
        },
        None => {},
    }
    items
}

} // verus!
