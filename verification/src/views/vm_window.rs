//! The VM window: its key, the key combinations it sends to the graphical
//! console and when it (re)connects that console.
use vstd::prelude::*;
use crate::console::ConsoleStatus;
use crate::console::vnc::{Key, VncInput, XK_ALT_L, XK_CONTROL_L, key_to_keysym, keysym_spec};
use crate::text::{owned, push_str};
use crate::uri::LibvirtUri;

verus! {

/// The key under which the window of machine `name` of connection `uri` is
/// kept.
pub fn vm_window_key(uri: &str, name: &str) -> (r: String)
    ensures
        r@ == uri@ + "+"@ + name@,
{
    let mut r = owned(uri);
    push_str(&mut r, "+");
    push_str(&mut r, name);
    r
}

/// Control and Alt held around a press of `keysym`.
pub open spec fn ctrl_alt_spec(keysym: u32) -> Seq<(u32, bool)> {
    seq![(0xffe3u32, true), (0xffe9u32, true), (keysym, true), (keysym, false), (0xffe9u32, false), (0xffe3u32, false)]
}

pub fn ctrl_alt_combo(keysym: u32) -> (r: Vec<(u32, bool)>)
    ensures
        r@ == ctrl_alt_spec(keysym),
{
    let r = vec![
        (XK_CONTROL_L, true),
        (XK_ALT_L, true),
        (keysym, true),
        (keysym, false),
        (XK_ALT_L, false),
        (XK_CONTROL_L, false),
    ];
    assert(r@ =~= ctrl_alt_spec(keysym));
    r
}

/// "Ctrl+Alt+Del".
pub fn ctrl_alt_del() -> (r: Vec<(u32, bool)>)
    ensures
        r@ == ctrl_alt_spec(0xffff),
{
    ctrl_alt_combo(0xffff)
}

/// "Ctrl+Alt+Backspace".
pub fn ctrl_alt_backspace() -> (r: Vec<(u32, bool)>)
    ensures
        r@ == ctrl_alt_spec(0xff08),
{
    ctrl_alt_combo(0xff08)
}

/// "Ctrl+Alt+F`n`" for the function keys 1 to 12.
pub fn ctrl_alt_fkey(n: u32) -> (r: Vec<(u32, bool)>)
    requires
        1 <= n <= 12,
    ensures
        r@ == ctrl_alt_spec((0xffbe + n - 1) as u32),
{
    ctrl_alt_combo(0xffbe + (n - 1))
}

/// "PrintScreen".
pub fn print_screen() -> (r: Vec<(u32, bool)>)
    ensures
        r@ == seq![(0xff61u32, true), (0xff61u32, false)],
{
    let r = vec![(0xff61u32, true), (0xff61u32, false)];
    assert(r@ =~= seq![(0xff61u32, true), (0xff61u32, false)]);
    r
}

/// A colour made lighter for a highlighted cell: 60 added to each colour
/// component, up to 255; the alpha stays.
pub fn brighten(rgba: (u8, u8, u8, u8)) -> (r: (u8, u8, u8, u8))
    ensures
        r.0 == (if rgba.0 + 60 > 255 { 255 } else { rgba.0 + 60 }),
        r.1 == (if rgba.1 + 60 > 255 { 255 } else { rgba.1 + 60 }),
        r.2 == (if rgba.2 + 60 > 255 { 255 } else { rgba.2 + 60 }),
        r.3 == rgba.3,
{
    (rgba.0.saturating_add(60), rgba.1.saturating_add(60), rgba.2.saturating_add(60), rgba.3)
}

/// The button mask of a pointer event: 1 for the primary button, 2 for the
/// middle one and 4 for the secondary one.
pub fn pointer_buttons(primary: bool, middle: bool, secondary: bool) -> (r: u8)
    ensures
        r == (if primary { 1int } else { 0 }) + (if middle { 2int } else { 0 }) + (if secondary { 4int } else { 0 }),
{
    let mut b: u8 = 0;
    if primary {
        b = b + 1;
    }
    if middle {
        b = b + 2;
    }
    if secondary {
        b = b + 4;
    }
    b
}

/// Which way the wheel turned while the pointer was over the display.
#[derive(Debug, Clone, Copy, PartialEq, Eq, Structural)]
pub enum Scroll {
    Up,
    Down,
    Still,
}

/// The pointer events sent for the pointer at (`x`, `y`) with `buttons`
/// held: a turn of the wheel is a press of button 4 (up) or 5 (down)
/// followed by its release.
pub open spec fn pointer_inputs_spec(x: u16, y: u16, buttons: u8, scroll: Scroll) -> Seq<VncInput> {
    match scroll {
        Scroll::Up => seq![
            VncInput::Mouse { x, y, buttons: buttons | 8u8 },
            VncInput::Mouse { x, y, buttons },
        ],
        Scroll::Down => seq![
            VncInput::Mouse { x, y, buttons: buttons | 16u8 },
            VncInput::Mouse { x, y, buttons },
        ],
        Scroll::Still => seq![VncInput::Mouse { x, y, buttons }],
    }
}

pub fn pointer_inputs(x: u16, y: u16, buttons: u8, scroll: Scroll) -> (r: Vec<VncInput>)
    ensures
        r@ == pointer_inputs_spec(x, y, buttons, scroll),
{
    let r = match scroll {
        Scroll::Up => vec![
            VncInput::Mouse { x, y, buttons: buttons | 8u8 },
            VncInput::Mouse { x, y, buttons },
        ],
        Scroll::Down => vec![
            VncInput::Mouse { x, y, buttons: buttons | 16u8 },
            VncInput::Mouse { x, y, buttons },
        ],
        Scroll::Still => vec![VncInput::Mouse { x, y, buttons }],
    };
    assert(r@ =~= pointer_inputs_spec(x, y, buttons, scroll));
    r
}

/// A key event of the keyboard as the graphical console sends it: a press
/// is preceded by presses of Control and Alt where they are held, a release
/// is followed by their releases in the reverse order; keys with no keysym
/// send nothing.
pub open spec fn key_inputs_spec(key: Key, pressed: bool, shift: bool, ctrl: bool, alt: bool) -> Seq<VncInput> {
    match keysym_spec(key, shift) {
        None => Seq::empty(),
        Some(k) => if pressed {
            (if ctrl { seq![VncInput::Key { keysym: 0xffe3u32, down: true }] } else { Seq::empty() })
                + (if alt { seq![VncInput::Key { keysym: 0xffe9u32, down: true }] } else { Seq::empty() })
                + seq![VncInput::Key { keysym: k, down: true }]
        } else {
            seq![VncInput::Key { keysym: k, down: false }]
                + (if alt { seq![VncInput::Key { keysym: 0xffe9u32, down: false }] } else { Seq::empty() })
                + (if ctrl { seq![VncInput::Key { keysym: 0xffe3u32, down: false }] } else { Seq::empty() })
        },
    }
}

pub fn key_inputs(key: Key, pressed: bool, shift: bool, ctrl: bool, alt: bool) -> (r: Vec<VncInput>)
    ensures
        r@ == key_inputs_spec(key, pressed, shift, ctrl, alt),
{
    let mut r: Vec<VncInput> = Vec::new();
    match key_to_keysym(key, shift) {
        None => {},
        Some(k) => {
            if pressed {
                if ctrl {
                    r.push(VncInput::Key { keysym: XK_CONTROL_L, down: true });
                }
                if alt {
                    r.push(VncInput::Key { keysym: XK_ALT_L, down: true });
                }
                r.push(VncInput::Key { keysym: k, down: true });
            } else {
                r.push(VncInput::Key { keysym: k, down: false });
                if alt {
                    r.push(VncInput::Key { keysym: XK_ALT_L, down: false });
                }
                if ctrl {
                    r.push(VncInput::Key { keysym: XK_CONTROL_L, down: false });
                }
            }
        },
    }
    assert(r@ =~= key_inputs_spec(key, pressed, shift, ctrl, alt));
    r
}

/// An input with its press turned into a release and back.
pub open spec fn flipped(i: VncInput) -> VncInput {
    match i {
        VncInput::Key { keysym, down } => VncInput::Key { keysym, down: !down },
        VncInput::Mouse { x, y, buttons } => VncInput::Mouse { x, y, buttons },
    }
}

/// Releasing a key sends what pressing it sent, in reverse order and with
/// every press made a release: the modifiers pressed with a key are
/// released after it, the last pressed first.
pub proof fn lemma_release_mirrors_press(key: Key, shift: bool, ctrl: bool, alt: bool)
    ensures
        key_inputs_spec(key, false, shift, ctrl, alt)
            == key_inputs_spec(key, true, shift, ctrl, alt).reverse().map_values(|i: VncInput| flipped(i)),
{
    let p = key_inputs_spec(key, true, shift, ctrl, alt);
    let r = key_inputs_spec(key, false, shift, ctrl, alt);
    assert(r =~= p.reverse().map_values(|i: VncInput| flipped(i)));
}

/// A key combination releases every key it presses, in the reverse order.
pub proof fn lemma_combo_balanced(keysym: u32)
    ensures
        ctrl_alt_spec(keysym).subrange(3, 6)
            == ctrl_alt_spec(keysym).subrange(0, 3).reverse().map_values(|i: (u32, bool)| (i.0, !i.1)),
{
    assert(ctrl_alt_spec(keysym).subrange(3, 6)
        =~= ctrl_alt_spec(keysym).subrange(0, 3).reverse().map_values(|i: (u32, bool)| (i.0, !i.1)));
}

/// Where the SSH tunnel of a remote display stands.
#[derive(Debug, Clone, Copy, PartialEq, Eq, Structural)]
pub enum TunnelState {
    Absent,
    /// The `ssh` process has ended.
    Dead,
    /// The local end does not accept connections yet.
    NotReady,
    /// The local end at this port is open.
    Ready(u16),
}

/// What the console tab does about the graphical console this frame.
#[derive(Debug, Clone)]
pub enum VncAction {
    Nothing,
    /// The tunnel is dropped and "SSH tunnel process died" reported.
    TunnelDied,
    /// Try again in a second.
    WaitForTunnel,
    /// Open a tunnel to the display port of the remote host.
    OpenTunnel { username: Option<String>, hostname: String, remote_port: u16 },
    /// Connect the VNC client.
    Connect { host: String, port: u16 },
}

/// The console tab's decision: whether the failed client is dropped (and
/// the attempt counted) first, and what it does then.
#[derive(Debug, Clone)]
pub struct VncStep {
    pub reset_handle: bool,
    pub action: VncAction,
}

/// Whether a client in this state is left alone: it is connected or still
/// connecting.
pub open spec fn client_busy(s: ConsoleStatus) -> bool {
    s is Connected || s is Connecting
}

/// Whether the console tab drops its failed client this frame: there is
/// one, it failed, fewer than 5 attempts were made and the retry time came.
pub open spec fn resets_client(handle: Option<ConsoleStatus>, retries: u32, retry_due: bool) -> bool {
    handle matches Some(s) && !client_busy(s) && retries < 5 && retry_due
}

/// Whether the console tab stops before connecting: the serial console is
/// open, or a client is busy, or out of attempts, or not due yet.
pub open spec fn holds_off(serial_active: bool, handle: Option<ConsoleStatus>, retries: u32, retry_due: bool) -> bool {
    serial_active || (handle matches Some(s) && (client_busy(s) || retries >= 5 || !retry_due))
}

/// What the console tab does about the graphical console, when it does not
/// hold off and the machine has a VNC display at `port`.
pub open spec fn connect_action(port: i32, is_remote: bool, tunnel: TunnelState, remote: Option<LibvirtUri>, a: VncAction) -> bool {
    if is_remote {
        match tunnel {
            TunnelState::Dead => a is TunnelDied,
            TunnelState::NotReady => a is WaitForTunnel,
            TunnelState::Ready(lp) => a matches VncAction::Connect { host, port: p } && host@ == "127.0.0.1"@ && p == lp,
            TunnelState::Absent => match remote {
                Some(u) => if u.hostname@.len() > 0 {
                    a matches VncAction::OpenTunnel { username, hostname, remote_port }
                        && username == u.username && hostname@ == u.hostname@ && remote_port == port as u16
                } else {
                    a matches VncAction::Connect { host, port: p } && host@ == "127.0.0.1"@ && p == port as u16
                },
                None => a matches VncAction::Connect { host, port: p } && host@ == "127.0.0.1"@ && p == port as u16,
            },
        }
    } else {
        a matches VncAction::Connect { host, port: p } && host@ == "127.0.0.1"@ && p == port as u16
    }
}

/// The console tab's decision about the graphical console.  `handle` is the
/// state of the current client, if any; `retry_due` whether the time set for
/// the next attempt has come (or none was set); `remote` the connection URI
/// as read, for a remote machine.
pub fn vnc_connect_step(
    serial_active: bool,
    handle: Option<&ConsoleStatus>,
    retries: u32,
    retry_due: bool,
    has_vnc: bool,
    vnc_port: Option<i32>,
    is_remote: bool,
    tunnel: TunnelState,
    remote: &Option<LibvirtUri>,
) -> (r: VncStep)
    ensures
        ({
            let h = match handle {
                Some(s) => Some(*s),
                None => None,
            };
            if holds_off(serial_active, h, retries, retry_due) {
                !r.reset_handle && r.action is Nothing
            } else {
                &&& r.reset_handle == resets_client(h, retries, retry_due)
                &&& match vnc_port {
                    Some(p) => if has_vnc {
                        connect_action(p, is_remote, tunnel, *remote, r.action)
                    } else {
                        r.action is Nothing
                    },
                    None => r.action is Nothing,
                }
            }
        }),
{
    if serial_active {
        return VncStep { reset_handle: false, action: VncAction::Nothing };
    }
    let mut reset = false;
    match handle {
        Some(s) => {
            let busy = match s {
                ConsoleStatus::Connected | ConsoleStatus::Connecting => true,
                _ => false,
            };
            if busy || retries >= 5 || !retry_due {
                return VncStep { reset_handle: false, action: VncAction::Nothing };
            }
            reset = true;
        },
        None => {},
    }
    if !has_vnc {
        return VncStep { reset_handle: reset, action: VncAction::Nothing };
    }
    let port = match vnc_port {
        Some(p) => p,
        None => return VncStep { reset_handle: reset, action: VncAction::Nothing },
    };
    #[verifier::truncate]
    let direct_port = port as u16;
    let action = if is_remote {
        match tunnel {
            TunnelState::Dead => VncAction::TunnelDied,
            TunnelState::NotReady => VncAction::WaitForTunnel,
            TunnelState::Ready(lp) => VncAction::Connect { host: owned("127.0.0.1"), port: lp },
            TunnelState::Absent => match remote {
                Some(u) => if !u.hostname.as_str().is_empty() {
                    VncAction::OpenTunnel {
                        username: u.username.clone(),
                        hostname: u.hostname.clone(),
                        remote_port: direct_port,
                    }
                } else {
                    VncAction::Connect { host: owned("127.0.0.1"), port: direct_port }
                },
                None => VncAction::Connect { host: owned("127.0.0.1"), port: direct_port },
            },
        }
    } else {
        VncAction::Connect { host: owned("127.0.0.1"), port: direct_port }
    };
    VncStep { reset_handle: reset, action }
}

/// The label of a display in the fallback view: its port, or `auto`.
pub fn port_label(port: Option<i32>) -> (r: String)
    ensures
        r@ == match port {
            Some(p) => crate::text::signed_decimal(p as int),
            None => "auto"@,
        },
{
    match port {
        Some(p) => {
            let mut r = String::new();
            crate::text::push_i64(&mut r, p as i64);
            r
        },
        None => owned("auto"),
    }
}

} // verus!
