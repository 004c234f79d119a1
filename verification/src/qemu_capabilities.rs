//! What the local QEMU offers: video, sound and network models, disk buses
//! and machine types, read from the help texts of `qemu-system-<arch>`.
use vstd::prelude::*;
use crate::text::{
    chars_eq, chars_of, first_word, first_word_of, lines_of, lines_spec, owned, push_str, starts_with,
    str_starts_with, string_of_chars, sub_chars, trim, trim_chars, first_index, index_of_char,
};

verus! {

/// What QEMU offers for one architecture; `loaded` tells whether QEMU was
/// asked at all.
#[derive(Debug, Clone)]
pub struct QemuCapabilities {
    pub loaded: bool,
    pub video_models: Vec<String>,
    pub sound_models: Vec<String>,
    pub nic_models: Vec<String>,
    pub disk_buses: Vec<String>,
    pub machine_types: Vec<String>,
}

/// The texts of a list of strings.
pub open spec fn strings_view(v: Seq<String>) -> Seq<Seq<char>> {
    v.map_values(|s: String| s@)
}

pub open spec fn default_video_models() -> Seq<Seq<char>> {
    seq!["virtio"@, "qxl"@, "vga"@, "bochs"@, "cirrus"@, "vmware"@, "none"@]
}

pub open spec fn default_sound_models() -> Seq<Seq<char>> {
    seq!["ich9"@, "ich6"@, "ac97"@, "es1370"@, "sb16"@, "usb-audio"@]
}

pub open spec fn default_nic_models() -> Seq<Seq<char>> {
    seq!["virtio"@, "e1000"@, "e1000e"@, "rtl8139"@, "vmxnet3"@]
}

pub open spec fn default_disk_buses() -> Seq<Seq<char>> {
    seq!["virtio"@, "scsi"@, "sata"@, "ide"@, "usb"@]
}

fn video_defaults() -> (r: Vec<String>)
    ensures
        strings_view(r@) == default_video_models(),
{
    let r = vec![
        owned("virtio"), owned("qxl"), owned("vga"), owned("bochs"), owned("cirrus"),
        owned("vmware"), owned("none"),
    ];
    assert(strings_view(r@) =~= default_video_models());
    r
}

fn sound_defaults() -> (r: Vec<String>)
    ensures
        strings_view(r@) == default_sound_models(),
{
    let r = vec![
        owned("ich9"), owned("ich6"), owned("ac97"), owned("es1370"), owned("sb16"),
        owned("usb-audio"),
    ];
    assert(strings_view(r@) =~= default_sound_models());
    r
}

fn nic_defaults() -> (r: Vec<String>)
    ensures
        strings_view(r@) == default_nic_models(),
{
    let r = vec![owned("virtio"), owned("e1000"), owned("e1000e"), owned("rtl8139"), owned("vmxnet3")];
    assert(strings_view(r@) =~= default_nic_models());
    r
}

fn disk_bus_defaults() -> (r: Vec<String>)
    ensures
        strings_view(r@) == default_disk_buses(),
{
    let r = vec![owned("virtio"), owned("scsi"), owned("sata"), owned("ide"), owned("usb")];
    assert(strings_view(r@) =~= default_disk_buses());
    r
}

/// The models named by the output of `-vga help`: the first word (the model
/// name, without its description) of every non-blank line but the heading.
pub open spec fn vga_names(lines: Seq<Seq<char>>) -> Seq<Seq<char>>
    decreases lines.len(),
{
    if lines.len() == 0 {
        Seq::empty()
    } else {
        let t = trim(lines[0]);
        let rest = vga_names(lines.drop_first());
        if t.len() > 0 && t != "Valid values for -vga:"@ {
            match first_word(lines[0]) {
                Some(w) => seq![w] + rest,
                None => rest,
            }
        } else {
            rest
        }
    }
}

/// The machine types named by the output of `-machine help`: the first word
/// of each line, but for the heading words and options.
pub open spec fn machine_names(lines: Seq<Seq<char>>) -> Seq<Seq<char>>
    decreases lines.len(),
{
    if lines.len() == 0 {
        Seq::empty()
    } else {
        let rest = machine_names(lines.drop_first());
        match first_word(lines[0]) {
            Some(w) => if w.len() > 0 && w != "Supported"@ && w != "supported"@ && w[0] != '-' {
                seq![w] + rest
            } else {
                rest
            },
            None => rest,
        }
    }
}

/// Whether `c` is an ASCII capital letter.
pub open spec fn ascii_capital(c: char) -> bool {
    'A' <= c && c <= 'Z'
}

/// Which section of the output of `-device help` the scan is in after the
/// trimmed line `t`: a "Sound" or "Network" heading opens that section,
/// another heading (a capital first letter, not a `name` line) closes it.
pub open spec fn device_section(t: Seq<char>, sound: bool, network: bool) -> (bool, bool) {
    if starts_with(t, "Sound"@) {
        (true, false)
    } else if starts_with(t, "Network"@) {
        (false, true)
    } else if t.len() > 0 && !starts_with(t, "name"@) && ascii_capital(t[0]) {
        (false, false)
    } else {
        (sound, network)
    }
}

/// The text up to the first double quote.
pub open spec fn up_to_quote(s: Seq<char>) -> Seq<char> {
    s.take(first_index(s, '"') as int)
}

/// The device named on the trimmed line `t`, if it is a `name "..."` line of
/// a section the scan is in.
pub open spec fn device_name(t: Seq<char>, sound: bool, network: bool) -> Option<Seq<char>> {
    if starts_with(t, "Sound"@) || starts_with(t, "Network"@) {
        None
    } else {
        let (s2, n2) = device_section(t, sound, network);
        if (s2 || n2) && starts_with(t, "name \""@) {
            Some(up_to_quote(t.skip(6)))
        } else {
            None
        }
    }
}

/// The sound and network models listed in `lines` of the output of
/// `-device help`, scanning from the given section.
pub open spec fn device_models(lines: Seq<Seq<char>>, sound: bool, network: bool) -> (Seq<Seq<char>>, Seq<Seq<char>>)
    decreases lines.len(),
{
    if lines.len() == 0 {
        (Seq::empty(), Seq::empty())
    } else {
        let t = trim(lines[0]);
        let (s2, n2) = device_section(t, sound, network);
        let (rs, rn) = device_models(lines.drop_first(), s2, n2);
        match device_name(t, sound, network) {
            Some(nm) => if s2 { (seq![nm] + rs, rn) } else { (rs, seq![nm] + rn) },
            None => (rs, rn),
        }
    }
}

/// The models named by the output of `-vga help`.
pub fn parse_vga_help(text: &str) -> (r: Vec<String>)
    ensures
        strings_view(r@) == vga_names(lines_spec(text@)),
{
    let lines = lines_of(text);
    let ghost ls = lines_spec(text@);
    let heading = chars_of("Valid values for -vga:");
    let mut r: Vec<String> = Vec::new();
    let mut i: usize = 0;
    assert(ls.skip(0) =~= ls);
    while i < lines.len()
        invariant
            i <= lines@.len(),
            lines@.len() == ls.len(),
            forall|k: int| 0 <= k < lines@.len() ==> (#[trigger] lines@[k])@ == ls[k],
            heading@ == "Valid values for -vga:"@,
            vga_names(ls) == strings_view(r@) + vga_names(ls.skip(i as int)),
        decreases lines@.len() - i,
    {
        let t = trim_chars(&lines[i]);
        proof {
            assert(ls.skip(i as int)[0] == ls[i as int]);
            assert(ls.skip(i as int).drop_first() =~= ls.skip(i + 1));
        }
        if t.len() > 0 && !chars_eq(&t, &heading) {
            match first_word_of(&lines[i]) {
                Some(w) => {
                    let ghost before = r@;
                    r.push(string_of_chars(&w));
                    proof {
                        assert(strings_view(r@) =~= strings_view(before) + seq![w@]);
                    }
                },
                None => {},
            }
        }
        i = i + 1;
    }
    proof {
        assert(ls.skip(i as int).len() == 0);
        assert(strings_view(r@) + Seq::<Seq<char>>::empty() =~= strings_view(r@));
    }
    r
}

/// The machine types named by the output of `-machine help`.
pub fn parse_machine_help(text: &str) -> (r: Vec<String>)
    ensures
        strings_view(r@) == machine_names(lines_spec(text@)),
{
    let lines = lines_of(text);
    let ghost ls = lines_spec(text@);
    let w_upper = chars_of("Supported");
    let w_lower = chars_of("supported");
    let mut r: Vec<String> = Vec::new();
    let mut i: usize = 0;
    assert(ls.skip(0) =~= ls);
    while i < lines.len()
        invariant
            i <= lines@.len(),
            lines@.len() == ls.len(),
            forall|k: int| 0 <= k < lines@.len() ==> (#[trigger] lines@[k])@ == ls[k],
            w_upper@ == "Supported"@,
            w_lower@ == "supported"@,
            machine_names(ls) == strings_view(r@) + machine_names(ls.skip(i as int)),
        decreases lines@.len() - i,
    {
        proof {
            assert(ls.skip(i as int)[0] == ls[i as int]);
            assert(ls.skip(i as int).drop_first() =~= ls.skip(i + 1));
        }
        match first_word_of(&lines[i]) {
            Some(w) => {
                if w.len() > 0 && !chars_eq(&w, &w_upper) && !chars_eq(&w, &w_lower) && w[0] != '-' {
                    let ghost before = r@;
                    r.push(string_of_chars(&w));
                    proof {
                        assert(strings_view(r@) =~= strings_view(before) + seq![w@]);
                    }
                }
            },
            None => {},
        }
        i = i + 1;
    }
    proof {
        assert(ls.skip(i as int).len() == 0);
        assert(strings_view(r@) + Seq::<Seq<char>>::empty() =~= strings_view(r@));
    }
    r
}

/// Adds the sound and network models listed in the output of `-device help`
/// to those of `caps`.
pub fn parse_device_help(text: &str, caps: &mut QemuCapabilities)
    ensures
        strings_view(final(caps).sound_models@) == strings_view(old(caps).sound_models@)
            + device_models(lines_spec(text@), false, false).0,
        strings_view(final(caps).nic_models@) == strings_view(old(caps).nic_models@)
            + device_models(lines_spec(text@), false, false).1,
        final(caps).loaded == old(caps).loaded,
        final(caps).video_models == old(caps).video_models,
        final(caps).disk_buses == old(caps).disk_buses,
        final(caps).machine_types == old(caps).machine_types,
{
    let lines = lines_of(text);
    let ghost ls = lines_spec(text@);
    let ghost s0 = strings_view(caps.sound_models@);
    let ghost n0 = strings_view(caps.nic_models@);
    let mut in_sound = false;
    let mut in_network = false;
    let mut i: usize = 0;
    assert(ls.skip(0) =~= ls);
    assert(s0 + device_models(ls, false, false).0 =~= strings_view(caps.sound_models@) + device_models(ls.skip(0), false, false).0);
    assert(n0 + device_models(ls, false, false).1 =~= strings_view(caps.nic_models@) + device_models(ls.skip(0), false, false).1);
    while i < lines.len()
        invariant
            i <= lines@.len(),
            lines@.len() == ls.len(),
            forall|k: int| 0 <= k < lines@.len() ==> (#[trigger] lines@[k])@ == ls[k],
            s0 + device_models(ls, false, false).0
                == strings_view(caps.sound_models@) + device_models(ls.skip(i as int), in_sound, in_network).0,
            n0 + device_models(ls, false, false).1
                == strings_view(caps.nic_models@) + device_models(ls.skip(i as int), in_sound, in_network).1,
            caps.loaded == old(caps).loaded,
            caps.video_models == old(caps).video_models,
            caps.disk_buses == old(caps).disk_buses,
            caps.machine_types == old(caps).machine_types,
        decreases lines@.len() - i,
    {
        let t = trim_chars(&lines[i]);
        let ghost tl = t@;
        let ghost rest = ls.skip(i as int);
        proof {
            assert(rest[0] == ls[i as int]);
            assert(rest.drop_first() =~= ls.skip(i + 1));
        }
        let ghost sec = device_section(tl, in_sound, in_network);
        let ghost nm = device_name(tl, in_sound, in_network);
        if str_starts_with(&t, "Sound") {
            in_sound = true;
            in_network = false;
        } else if str_starts_with(&t, "Network") {
            in_network = true;
            in_sound = false;
        } else {
            let is_name = str_starts_with(&t, "name");
            if t.len() > 0 && !is_name && 'A' <= t[0] && t[0] <= 'Z' {
                in_sound = false;
                in_network = false;
            }
            if (in_sound || in_network) && str_starts_with(&t, "name \"") {
                proof {
                    reveal_strlit("name \"");
                }
                let q = index_of_char(&t, '"', 6);
                let name = sub_chars(&t, 6, q);
                proof {
                    assert(tl.skip(6).take(first_index(tl.skip(6), '"') as int) =~= name@);
                }
                let ghost sb = caps.sound_models@;
                let ghost nb = caps.nic_models@;
                if in_sound {
                    caps.sound_models.push(string_of_chars(&name));
                    proof {
                        assert(strings_view(caps.sound_models@) =~= strings_view(sb) + seq![name@]);
                    }
                } else {
                    caps.nic_models.push(string_of_chars(&name));
                    proof {
                        assert(strings_view(caps.nic_models@) =~= strings_view(nb) + seq![name@]);
                    }
                }
            }
        }
        proof {
            assert(sec == (in_sound, in_network));
        }
        i = i + 1;
    }
    proof {
        assert(ls.skip(i as int).len() == 0);
        assert(strings_view(caps.sound_models@) + Seq::<Seq<char>>::empty() =~= strings_view(caps.sound_models@));
        assert(strings_view(caps.nic_models@) + Seq::<Seq<char>>::empty() =~= strings_view(caps.nic_models@));
    }
}

/// The QEMU emulator binary for the architecture `arch`.
pub fn qemu_binary(arch: &str) -> (r: String)
    ensures
        r@ == "qemu-system-"@ + arch@,
{
    let mut r = owned("qemu-system-");
    push_str(&mut r, arch);
    r
}

impl QemuCapabilities {
    /// The lists used when QEMU could not be asked.
    pub fn fallback() -> (r: Self)
        ensures
            !r.loaded,
            strings_view(r.video_models@) == default_video_models(),
            strings_view(r.sound_models@) == default_sound_models(),
            strings_view(r.nic_models@) == default_nic_models(),
            strings_view(r.disk_buses@) == default_disk_buses(),
            r.machine_types@.len() == 0,
    {
        QemuCapabilities {
            loaded: false,
            video_models: video_defaults(),
            sound_models: sound_defaults(),
            nic_models: nic_defaults(),
            disk_buses: disk_bus_defaults(),
            machine_types: Vec::new(),
        }
    }

    /// The capabilities read from the outputs of `-vga help` (standard
    /// output), `-device help` (standard error) and `-machine help` (standard
    /// output); `None` where QEMU could not be run.  Lists that come out
    /// empty are replaced by the defaults, but for the machine types.
    pub fn from_help(vga: Option<&str>, device: Option<&str>, machine: Option<&str>) -> (r: Self)
        ensures
            r.loaded,
            strings_view(r.disk_buses@) == default_disk_buses(),
            ({
                let v = match vga {
                    Some(t) => vga_names(lines_spec(t@)),
                    None => Seq::empty(),
                };
                strings_view(r.video_models@) == if v.len() > 0 { v } else { default_video_models() }
            }),
            ({
                let d = match device {
                    Some(t) => device_models(lines_spec(t@), false, false),
                    None => (Seq::empty(), Seq::empty()),
                };
                &&& strings_view(r.sound_models@) == if d.0.len() > 0 { d.0 } else { default_sound_models() }
                &&& strings_view(r.nic_models@) == if d.1.len() > 0 { d.1 } else { default_nic_models() }
            }),
            strings_view(r.machine_types@) == match machine {
                Some(t) => machine_names(lines_spec(t@)),
                None => Seq::empty(),
            },
    {
        let mut caps = QemuCapabilities {
            loaded: true,
            video_models: Vec::new(),
            sound_models: Vec::new(),
            nic_models: Vec::new(),
            disk_buses: disk_bus_defaults(),
            machine_types: Vec::new(),
        };
        match vga {
            Some(t) => {
                caps.video_models = parse_vga_help(t);
            },
            None => {},
        }
        if caps.video_models.len() == 0 {
            caps.video_models = video_defaults();
        }
        match device {
            Some(t) => {
                proof {
                    assert(strings_view(caps.sound_models@) =~= Seq::<Seq<char>>::empty());
                    assert(strings_view(caps.nic_models@) =~= Seq::<Seq<char>>::empty());
                }
                parse_device_help(t, &mut caps);
                proof {
                    let d = device_models(lines_spec(t@), false, false);
                    assert(Seq::<Seq<char>>::empty() + d.0 =~= d.0);
                    assert(Seq::<Seq<char>>::empty() + d.1 =~= d.1);
                }
            },
            None => {},
        }
        if caps.sound_models.len() == 0 {
            caps.sound_models = sound_defaults();
        }
        if caps.nic_models.len() == 0 {
            caps.nic_models = nic_defaults();
        }
        match machine {
            Some(t) => {
                caps.machine_types = parse_machine_help(t);
            },
            None => {},
        }
        proof {
            assert(strings_view(Seq::<String>::empty()) =~= Seq::<Seq<char>>::empty());
        }
        caps
    }
}

} // verus!
