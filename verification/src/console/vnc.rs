//! The graphical console: the keys and pointer events sent to the VNC
//! server and the framebuffer its updates are drawn into.
use vstd::prelude::*;
use super::ConsoleStatus;
use crate::text::{owned, push_str};
use vstd::arithmetic::div_mod::lemma_fundamental_div_mod_converse;
use vstd::arithmetic::mul::lemma_mul_inequality;

verus! {

/// An input event for the VNC server.
#[derive(Debug, Clone, Copy, PartialEq, Eq, Structural)]
pub enum VncInput {
    Key { keysym: u32, down: bool },
    Mouse { x: u16, y: u16, buttons: u8 },
}

/// The keys of the keyboard that the consoles translate; `Other` stands for
/// every key they do not.
#[derive(Debug, Clone, Copy, PartialEq, Eq, Structural)]
pub enum Key {
    ArrowDown,
    ArrowLeft,
    ArrowRight,
    ArrowUp,
    Escape,
    Tab,
    Backspace,
    Enter,
    Space,
    Insert,
    Delete,
    Home,
    End,
    PageUp,
    PageDown,
    A,
    B,
    C,
    D,
    E,
    F,
    G,
    H,
    I,
    J,
    K,
    L,
    M,
    N,
    O,
    P,
    Q,
    R,
    S,
    T,
    U,
    V,
    W,
    X,
    Y,
    Z,
    Num0,
    Num1,
    Num2,
    Num3,
    Num4,
    Num5,
    Num6,
    Num7,
    Num8,
    Num9,
    Minus,
    Equals,
    OpenBracket,
    CloseBracket,
    Backslash,
    Semicolon,
    Quote,
    Comma,
    Period,
    Slash,
    Backtick,
    Plus,
    Colon,
    Pipe,
    Questionmark,
    Exclamationmark,
    OpenCurlyBracket,
    CloseCurlyBracket,
    F1,
    F2,
    F3,
    F4,
    F5,
    F6,
    F7,
    F8,
    F9,
    F10,
    F11,
    F12,
    F13,
    F14,
    F15,
    F16,
    F17,
    F18,
    F19,
    F20,
    Other,
}

/// The X11 keysym of a key, with or without Shift held (US layout).
pub open spec fn keysym_spec(key: Key, shift: bool) -> Option<u32> {
    match key {
        Key::ArrowDown => Some(0xff54),
        Key::ArrowLeft => Some(0xff51),
        Key::ArrowRight => Some(0xff53),
        Key::ArrowUp => Some(0xff52),
        Key::Escape => Some(0xff1b),
        Key::Tab => Some(0xff09),
        Key::Backspace => Some(0xff08),
        Key::Enter => Some(0xff0d),
        Key::Space => Some(0x20),
        Key::Insert => Some(0xff63),
        Key::Delete => Some(0xffff),
        Key::Home => Some(0xff50),
        Key::End => Some(0xff57),
        Key::PageUp => Some(0xff55),
        Key::PageDown => Some(0xff56),
        Key::A => Some(if shift { 0x41 } else { 0x61 }),
        Key::B => Some(if shift { 0x42 } else { 0x62 }),
        Key::C => Some(if shift { 0x43 } else { 0x63 }),
        Key::D => Some(if shift { 0x44 } else { 0x64 }),
        Key::E => Some(if shift { 0x45 } else { 0x65 }),
        Key::F => Some(if shift { 0x46 } else { 0x66 }),
        Key::G => Some(if shift { 0x47 } else { 0x67 }),
        Key::H => Some(if shift { 0x48 } else { 0x68 }),
        Key::I => Some(if shift { 0x49 } else { 0x69 }),
        Key::J => Some(if shift { 0x4a } else { 0x6a }),
        Key::K => Some(if shift { 0x4b } else { 0x6b }),
        Key::L => Some(if shift { 0x4c } else { 0x6c }),
        Key::M => Some(if shift { 0x4d } else { 0x6d }),
        Key::N => Some(if shift { 0x4e } else { 0x6e }),
        Key::O => Some(if shift { 0x4f } else { 0x6f }),
        Key::P => Some(if shift { 0x50 } else { 0x70 }),
        Key::Q => Some(if shift { 0x51 } else { 0x71 }),
        Key::R => Some(if shift { 0x52 } else { 0x72 }),
        Key::S => Some(if shift { 0x53 } else { 0x73 }),
        Key::T => Some(if shift { 0x54 } else { 0x74 }),
        Key::U => Some(if shift { 0x55 } else { 0x75 }),
        Key::V => Some(if shift { 0x56 } else { 0x76 }),
        Key::W => Some(if shift { 0x57 } else { 0x77 }),
        Key::X => Some(if shift { 0x58 } else { 0x78 }),
        Key::Y => Some(if shift { 0x59 } else { 0x79 }),
        Key::Z => Some(if shift { 0x5a } else { 0x7a }),
        Key::Num0 => Some(if shift { 0x29 } else { 0x30 }),
        Key::Num1 => Some(if shift { 0x21 } else { 0x31 }),
        Key::Num2 => Some(if shift { 0x40 } else { 0x32 }),
        Key::Num3 => Some(if shift { 0x23 } else { 0x33 }),
        Key::Num4 => Some(if shift { 0x24 } else { 0x34 }),
        Key::Num5 => Some(if shift { 0x25 } else { 0x35 }),
        Key::Num6 => Some(if shift { 0x5e } else { 0x36 }),
        Key::Num7 => Some(if shift { 0x26 } else { 0x37 }),
        Key::Num8 => Some(if shift { 0x2a } else { 0x38 }),
        Key::Num9 => Some(if shift { 0x28 } else { 0x39 }),
        Key::Minus => Some(if shift { 0x5f } else { 0x2d }),
        Key::Equals => Some(if shift { 0x2b } else { 0x3d }),
        Key::OpenBracket => Some(if shift { 0x7b } else { 0x5b }),
        Key::CloseBracket => Some(if shift { 0x7d } else { 0x5d }),
        Key::Backslash => Some(if shift { 0x7c } else { 0x5c }),
        Key::Semicolon => Some(if shift { 0x3a } else { 0x3b }),
        Key::Quote => Some(if shift { 0x22 } else { 0x27 }),
        Key::Comma => Some(if shift { 0x3c } else { 0x2c }),
        Key::Period => Some(if shift { 0x3e } else { 0x2e }),
        Key::Slash => Some(if shift { 0x3f } else { 0x2f }),
        Key::Backtick => Some(if shift { 0x7e } else { 0x60 }),
        Key::Plus => Some(0x2b),
        Key::Colon => Some(0x3a),
        Key::Pipe => Some(0x7c),
        Key::Questionmark => Some(0x3f),
        Key::Exclamationmark => Some(0x21),
        Key::OpenCurlyBracket => Some(0x7b),
        Key::CloseCurlyBracket => Some(0x7d),
        Key::F1 => Some(0xffbe),
        Key::F2 => Some(0xffbf),
        Key::F3 => Some(0xffc0),
        Key::F4 => Some(0xffc1),
        Key::F5 => Some(0xffc2),
        Key::F6 => Some(0xffc3),
        Key::F7 => Some(0xffc4),
        Key::F8 => Some(0xffc5),
        Key::F9 => Some(0xffc6),
        Key::F10 => Some(0xffc7),
        Key::F11 => Some(0xffc8),
        Key::F12 => Some(0xffc9),
        Key::F13 => Some(0xffca),
        Key::F14 => Some(0xffcb),
        Key::F15 => Some(0xffcc),
        Key::F16 => Some(0xffcd),
        Key::F17 => Some(0xffce),
        Key::F18 => Some(0xffcf),
        Key::F19 => Some(0xffd0),
        Key::F20 => Some(0xffd1),
        Key::Other => None,
    }
}

/// The X11 keysym that the VNC server is sent for a key press.
pub fn key_to_keysym(key: Key, shift: bool) -> (r: Option<u32>)
    ensures
        r == keysym_spec(key, shift),
{
    match key {
        Key::ArrowDown => Some(0xff54),
        Key::ArrowLeft => Some(0xff51),
        Key::ArrowRight => Some(0xff53),
        Key::ArrowUp => Some(0xff52),
        Key::Escape => Some(0xff1b),
        Key::Tab => Some(0xff09),
        Key::Backspace => Some(0xff08),
        Key::Enter => Some(0xff0d),
        Key::Space => Some(0x20),
        Key::Insert => Some(0xff63),
        Key::Delete => Some(0xffff),
        Key::Home => Some(0xff50),
        Key::End => Some(0xff57),
        Key::PageUp => Some(0xff55),
        Key::PageDown => Some(0xff56),
        Key::A => Some(if shift { 0x41 } else { 0x61 }),
        Key::B => Some(if shift { 0x42 } else { 0x62 }),
        Key::C => Some(if shift { 0x43 } else { 0x63 }),
        Key::D => Some(if shift { 0x44 } else { 0x64 }),
        Key::E => Some(if shift { 0x45 } else { 0x65 }),
        Key::F => Some(if shift { 0x46 } else { 0x66 }),
        Key::G => Some(if shift { 0x47 } else { 0x67 }),
        Key::H => Some(if shift { 0x48 } else { 0x68 }),
        Key::I => Some(if shift { 0x49 } else { 0x69 }),
        Key::J => Some(if shift { 0x4a } else { 0x6a }),
        Key::K => Some(if shift { 0x4b } else { 0x6b }),
        Key::L => Some(if shift { 0x4c } else { 0x6c }),
        Key::M => Some(if shift { 0x4d } else { 0x6d }),
        Key::N => Some(if shift { 0x4e } else { 0x6e }),
        Key::O => Some(if shift { 0x4f } else { 0x6f }),
        Key::P => Some(if shift { 0x50 } else { 0x70 }),
        Key::Q => Some(if shift { 0x51 } else { 0x71 }),
        Key::R => Some(if shift { 0x52 } else { 0x72 }),
        Key::S => Some(if shift { 0x53 } else { 0x73 }),
        Key::T => Some(if shift { 0x54 } else { 0x74 }),
        Key::U => Some(if shift { 0x55 } else { 0x75 }),
        Key::V => Some(if shift { 0x56 } else { 0x76 }),
        Key::W => Some(if shift { 0x57 } else { 0x77 }),
        Key::X => Some(if shift { 0x58 } else { 0x78 }),
        Key::Y => Some(if shift { 0x59 } else { 0x79 }),
        Key::Z => Some(if shift { 0x5a } else { 0x7a }),
        Key::Num0 => Some(if shift { 0x29 } else { 0x30 }),
        Key::Num1 => Some(if shift { 0x21 } else { 0x31 }),
        Key::Num2 => Some(if shift { 0x40 } else { 0x32 }),
        Key::Num3 => Some(if shift { 0x23 } else { 0x33 }),
        Key::Num4 => Some(if shift { 0x24 } else { 0x34 }),
        Key::Num5 => Some(if shift { 0x25 } else { 0x35 }),
        Key::Num6 => Some(if shift { 0x5e } else { 0x36 }),
        Key::Num7 => Some(if shift { 0x26 } else { 0x37 }),
        Key::Num8 => Some(if shift { 0x2a } else { 0x38 }),
        Key::Num9 => Some(if shift { 0x28 } else { 0x39 }),
        Key::Minus => Some(if shift { 0x5f } else { 0x2d }),
        Key::Equals => Some(if shift { 0x2b } else { 0x3d }),
        Key::OpenBracket => Some(if shift { 0x7b } else { 0x5b }),
        Key::CloseBracket => Some(if shift { 0x7d } else { 0x5d }),
        Key::Backslash => Some(if shift { 0x7c } else { 0x5c }),
        Key::Semicolon => Some(if shift { 0x3a } else { 0x3b }),
        Key::Quote => Some(if shift { 0x22 } else { 0x27 }),
        Key::Comma => Some(if shift { 0x3c } else { 0x2c }),
        Key::Period => Some(if shift { 0x3e } else { 0x2e }),
        Key::Slash => Some(if shift { 0x3f } else { 0x2f }),
        Key::Backtick => Some(if shift { 0x7e } else { 0x60 }),
        Key::Plus => Some(0x2b),
        Key::Colon => Some(0x3a),
        Key::Pipe => Some(0x7c),
        Key::Questionmark => Some(0x3f),
        Key::Exclamationmark => Some(0x21),
        Key::OpenCurlyBracket => Some(0x7b),
        Key::CloseCurlyBracket => Some(0x7d),
        Key::F1 => Some(0xffbe),
        Key::F2 => Some(0xffbf),
        Key::F3 => Some(0xffc0),
        Key::F4 => Some(0xffc1),
        Key::F5 => Some(0xffc2),
        Key::F6 => Some(0xffc3),
        Key::F7 => Some(0xffc4),
        Key::F8 => Some(0xffc5),
        Key::F9 => Some(0xffc6),
        Key::F10 => Some(0xffc7),
        Key::F11 => Some(0xffc8),
        Key::F12 => Some(0xffc9),
        Key::F13 => Some(0xffca),
        Key::F14 => Some(0xffcb),
        Key::F15 => Some(0xffcc),
        Key::F16 => Some(0xffcd),
        Key::F17 => Some(0xffce),
        Key::F18 => Some(0xffcf),
        Key::F19 => Some(0xffd0),
        Key::F20 => Some(0xffd1),
        Key::Other => None,
    }
}

/// The keysym of the left Shift key.
pub const XK_SHIFT_L: u32 = 0xffe1;

/// The keysym of the left Control key.
pub const XK_CONTROL_L: u32 = 0xffe3;

/// The keysym of the left Alt key.
pub const XK_ALT_L: u32 = 0xffe9;

/// An opaque colour.
#[derive(Debug, Clone, Copy, PartialEq, Eq, Structural)]
pub struct Rgb {
    pub r: u8,
    pub g: u8,
    pub b: u8,
}

/// Black.
pub open spec fn black() -> Rgb {
    Rgb { r: 0, g: 0, b: 0 }
}

/// A rectangle of the remote screen.
#[derive(Debug, Clone, Copy, PartialEq, Eq, Structural)]
pub struct VncRect {
    pub x: u16,
    pub y: u16,
    pub width: u16,
    pub height: u16,
}

/// The image of the remote screen, row by row.
#[derive(Debug, Clone)]
pub struct Framebuffer {
    pub width: usize,
    pub height: usize,
    pub pixels: Vec<Rgb>,
}

impl Framebuffer {
    /// Holds one pixel per position of a screen that a VNC server can
    /// describe.
    pub open spec fn wf(&self) -> bool {
        &&& self.width <= 65535
        &&& self.height <= 65535
        &&& self.pixels@.len() == self.width * self.height
    }

    /// Whether the screen is well formed (`wf`).
    pub fn is_wf(&self) -> (r: bool)
        ensures
            r == self.wf(),
    {
        if self.width > 65535 || self.height > 65535 {
            return false;
        }
        proof {
            lemma_mul_inequality(self.width as int, 65535, self.height as int);
            assert(65535 * self.height <= 65535 * 65535) by (nonlinear_arith)
                requires self.height <= 65535;
        }
        self.pixels.len() == self.width * self.height
    }

    /// An all-black screen of the size the server announced.
    pub fn new(width: u16, height: u16) -> (r: Self)
        ensures
            r.wf(),
            r.width == width,
            r.height == height,
            forall|i: int| 0 <= i < r.pixels@.len() ==> r.pixels@[i] == black(),
    {
        let w = width as usize;
        let h = height as usize;
        proof {
            lemma_mul_inequality(w as int, 65535, h as int);
            assert(65535 * h <= 65535 * 65535) by (nonlinear_arith)
                requires h <= 65535;
        }
        let n = w * h;
        let mut pixels: Vec<Rgb> = Vec::new();
        while pixels.len() < n
            invariant
                pixels@.len() <= n,
                forall|i: int| 0 <= i < pixels@.len() ==> pixels@[i] == black(),
            decreases n - pixels@.len(),
        {
            pixels.push(Rgb { r: 0, g: 0, b: 0 });
        }
        Framebuffer { width: w, height: h, pixels }
    }
}

/// The position on a screen `fb_w` pixels wide of the `k`-th pixel of a
/// block `bw` pixels wide placed at (`x`, `y`), counting row by row.
pub open spec fn block_pos(fb_w: int, x: int, y: int, bw: int, k: int) -> int {
    (y + k / bw) * fb_w + x + k % bw
}

/// The colour of the `k`-th pixel of RGBA data.
pub open spec fn rgba_pixel(data: Seq<u8>, k: int) -> Rgb {
    Rgb { r: data[4 * k], g: data[4 * k + 1], b: data[4 * k + 2] }
}

/// `pixels` after the first `n` pixels of a block of RGBA data `bw` pixels
/// wide were drawn at (`x`, `y`), in order; positions past the end of the
/// screen are skipped.
pub open spec fn blit_upto(pixels: Seq<Rgb>, fb_w: int, x: int, y: int, bw: int, data: Seq<u8>, n: nat) -> Seq<Rgb>
    decreases n,
{
    if n == 0 {
        pixels
    } else {
        let p = blit_upto(pixels, fb_w, x, y, bw, data, (n - 1) as nat);
        let d = block_pos(fb_w, x, y, bw, n - 1);
        if 0 <= d < p.len() {
            p.update(d, rgba_pixel(data, n - 1))
        } else {
            p
        }
    }
}

/// How many whole-enough pixels RGBA data holds: a pixel is drawn when its
/// red, green and blue bytes are there.
pub open spec fn rgba_count(len: nat) -> nat {
    if len < 3 { 0 } else { ((len - 3) / 4 + 1) as nat }
}

/// `pixels` after the `k`-th pixel of the rectangle `dst` was given the
/// colour found at the same place of `src` in `old` (black off the screen).
pub open spec fn copy_upto(old: Seq<Rgb>, pixels: Seq<Rgb>, fb_w: int, src: VncRect, dst: VncRect, n: nat) -> Seq<Rgb>
    decreases n,
{
    if n == 0 {
        pixels
    } else {
        let p = copy_upto(old, pixels, fb_w, src, dst, (n - 1) as nat);
        let k = n - 1;
        let s = block_pos(fb_w, src.x as int, src.y as int, dst.width as int, k);
        let v = if 0 <= s < old.len() { old[s] } else { black() };
        let d = block_pos(fb_w, dst.x as int, dst.y as int, dst.width as int, k);
        if 0 <= d < p.len() {
            p.update(d, v)
        } else {
            p
        }
    }
}

proof fn lemma_row_col(row: int, col: int, w: int)
    requires
        0 <= row,
        0 <= col < w,
    ensures
        (row * w + col) / w == row,
        (row * w + col) % w == col,
{
    lemma_fundamental_div_mod_converse(row * w + col, w, row, col);
}

proof fn lemma_next_index(row: int, col: int, w: int)
    requires
        0 <= row,
        0 <= col < w,
    ensures
        row * w + col + 1 == if col + 1 == w { (row + 1) * w + 0 } else { row * w + (col + 1) },
{
    assert((row + 1) * w == row * w + w) by (nonlinear_arith);
}

/// The position on the screen of a pixel of a block, if it is on it.
fn screen_index(fb: &Framebuffer, x: u64, y: u64, row: u64, col: u64) -> (r: Option<usize>)
    requires
        fb.wf(),
        x <= 0xffff_ffff,
        y <= 0xffff_ffff,
        row <= 0xffff_ffff,
        col <= 0xffff_ffff,
    ensures
        ({
            let d = (y + row) * fb.width + x + col;
            match r {
                Some(i) => i == d && d < fb.pixels@.len(),
                None => d >= fb.pixels@.len(),
            }
        }),
{
    let w = fb.width as u64;
    proof {
        assert((y + row) * w <= 0x2_0000_0000 * 65535) by (nonlinear_arith)
            requires
                y + row <= 0x2_0000_0000,
                w <= 65535;
    }
    let d: u64 = (y + row) * w + x + col;
    if d < fb.pixels.len() as u64 {
        Some(d as usize)
    } else {
        None
    }
}

/// Draws a block of RGBA pixels `rect.width` wide at the rectangle's
/// position, row by row, until the data runs short; pixels that fall off
/// the screen are skipped.
pub fn blit_rgba(fb: &mut Framebuffer, rect: &VncRect, data: &[u8])
    requires
        old(fb).wf(),
    ensures
        final(fb).wf(),
        final(fb).width == old(fb).width,
        final(fb).height == old(fb).height,
        final(fb).pixels@ == blit_upto(old(fb).pixels@, old(fb).width as int, rect.x as int, rect.y as int,
            rect.width as int, data@,
            if (rect.width * rect.height) as nat <= rgba_count(data@.len()) {
                (rect.width * rect.height) as nat
            } else {
                rgba_count(data@.len())
            }),
{
    let ghost old_pixels = fb.pixels@;
    let ghost fb_w = fb.width as int;
    let rw = rect.width as u64;
    let rh = rect.height as u64;
    let len = data.len() as u64;
    let mut row: u64 = 0;
    while row < rh
        invariant
            fb.wf(),
            fb.width == old(fb).width,
            fb.height == old(fb).height,
            fb_w == fb.width,
            old_pixels == old(fb).pixels@,
            rw == rect.width,
            rh == rect.height,
            len == data@.len(),
            row <= rh,
            row * rw <= rgba_count(data@.len()),
            fb.pixels@ == blit_upto(old_pixels, fb_w, rect.x as int, rect.y as int, rw as int, data@, (row * rw) as nat),
        decreases rh - row,
    {
        let mut col: u64 = 0;
        while col < rw
            invariant
                fb.wf(),
                fb.width == old(fb).width,
                fb.height == old(fb).height,
                fb_w == fb.width,
                old_pixels == old(fb).pixels@,
                rw == rect.width,
                rh == rect.height,
                len == data@.len(),
                row < rh,
                col <= rw,
                row * rw + col <= rgba_count(data@.len()),
                fb.pixels@ == blit_upto(old_pixels, fb_w, rect.x as int, rect.y as int, rw as int, data@, (row * rw + col) as nat),
            decreases rw - col,
        {
            let ghost k = row * rw + col;
            proof {
                assert(row * rw + col < 65536 * 65536) by (nonlinear_arith)
                    requires row < rh, col < rw, rh <= 65535, rw <= 65535;
            }
            let src: u64 = (row * rw + col) * 4;
            if src + 2 >= len {
                proof {
                    assert(rgba_count(data@.len()) == k);
                    assert(row * rw + col <= rw * rh) by (nonlinear_arith)
                        requires row < rh, col < rw;
                    assert(rw * rh == rect.width * rect.height);
                }
                return;
            }
            proof {
                lemma_row_col(row as int, col as int, rw as int);
                assert(k + 1 <= rgba_count(data@.len()));
            }
            let px = Rgb { r: data[src as usize], g: data[src as usize + 1], b: data[src as usize + 2] };
            assert(px == rgba_pixel(data@, k));
            match screen_index(fb, rect.x as u64, rect.y as u64, row, col) {
                Some(d) => {
                    fb.pixels.set(d, px);
                },
                None => {},
            }
            proof {
                lemma_next_index(row as int, col as int, rw as int);
            }
            col = col + 1;
        }
        proof {
            assert((row + 1) * rw == row * rw + rw) by (nonlinear_arith);
        }
        row = row + 1;
    }
    proof {
        assert(row * rw == rw * rh) by (nonlinear_arith)
            requires row == rh;
        assert(rw * rh == rect.width * rect.height);
    }
}


/// The colour at the place of the `k`-th pixel of a block `bw` wide placed
/// at `src`, black off the screen.
pub open spec fn copy_source(old: Seq<Rgb>, fb_w: int, src: VncRect, bw: int, k: int) -> Rgb {
    let s = block_pos(fb_w, src.x as int, src.y as int, bw, k);
    if 0 <= s < old.len() { old[s] } else { black() }
}

/// Copies the rectangle of the size of `dst` at the position of `src` to the
/// position of `dst`, as it was before the copy began (the server's
/// CopyRect update); places off the screen read as black and are not
/// written.
pub fn copy_rect(fb: &mut Framebuffer, src: &VncRect, dst: &VncRect)
    requires
        old(fb).wf(),
    ensures
        final(fb).wf(),
        final(fb).width == old(fb).width,
        final(fb).height == old(fb).height,
        final(fb).pixels@ == copy_upto(old(fb).pixels@, old(fb).pixels@, old(fb).width as int, *src, *dst,
            (dst.width * dst.height) as nat),
{
    let ghost old_pixels = fb.pixels@;
    let ghost fb_w = fb.width as int;
    let w = dst.width as u64;
    let h = dst.height as u64;
    let mut buf: Vec<Rgb> = Vec::new();
    let mut row: u64 = 0;
    while row < h
        invariant
            fb.wf(),
            fb.pixels@ == old_pixels,
            fb_w == fb.width,
            w == dst.width,
            h == dst.height,
            row <= h,
            buf@.len() == row * w,
            forall|k: int| 0 <= k < buf@.len() ==> buf@[k] == copy_source(old_pixels, fb_w, *src, w as int, k),
        decreases h - row,
    {
        let mut col: u64 = 0;
        while col < w
            invariant
                fb.wf(),
                fb.pixels@ == old_pixels,
                fb_w == fb.width,
                w == dst.width,
                h == dst.height,
                row < h,
                col <= w,
                buf@.len() == row * w + col,
                forall|k: int| 0 <= k < buf@.len() ==> buf@[k] == copy_source(old_pixels, fb_w, *src, w as int, k),
            decreases w - col,
        {
            proof {
                lemma_row_col(row as int, col as int, w as int);
            }
            let v = match screen_index(fb, src.x as u64, src.y as u64, row, col) {
                Some(i) => fb.pixels[i],
                None => Rgb { r: 0, g: 0, b: 0 },
            };
            buf.push(v);
            proof {
                lemma_next_index(row as int, col as int, w as int);
            }
            col = col + 1;
        }
        proof {
            assert((row + 1) * w == row * w + w) by (nonlinear_arith);
        }
        row = row + 1;
    }
    proof {
        assert(row * w == w * h) by (nonlinear_arith)
            requires row == h;
    }
    let mut row: u64 = 0;
    while row < h
        invariant
            fb.wf(),
            fb.width == old(fb).width,
            fb.height == old(fb).height,
            fb_w == fb.width,
            old_pixels == old(fb).pixels@,
            w == dst.width,
            h == dst.height,
            row <= h,
            buf@.len() == w * h,
            forall|k: int| 0 <= k < buf@.len() ==> buf@[k] == copy_source(old_pixels, fb_w, *src, w as int, k),
            fb.pixels@ == copy_upto(old_pixels, old_pixels, fb_w, *src, *dst, (row * w) as nat),
        decreases h - row,
    {
        let mut col: u64 = 0;
        while col < w
            invariant
                fb.wf(),
                fb.width == old(fb).width,
                fb.height == old(fb).height,
                fb_w == fb.width,
                old_pixels == old(fb).pixels@,
                w == dst.width,
                h == dst.height,
                row < h,
                col <= w,
                buf@.len() == w * h,
                forall|k: int| 0 <= k < buf@.len() ==> buf@[k] == copy_source(old_pixels, fb_w, *src, w as int, k),
                fb.pixels@ == copy_upto(old_pixels, old_pixels, fb_w, *src, *dst, (row * w + col) as nat),
            decreases w - col,
        {
            proof {
                lemma_row_col(row as int, col as int, w as int);
                assert(row * w + col < w * h) by (nonlinear_arith)
                    requires row < h, col < w;
                assert(w * h <= 65535 * 65535) by (nonlinear_arith)
                    requires w <= 65535, h <= 65535;
            }
            let k = (row * w + col) as usize;
            let v = buf[k];
            match screen_index(fb, dst.x as u64, dst.y as u64, row, col) {
                Some(d) => {
                    fb.pixels.set(d, v);
                },
                None => {},
            }
            proof {
                lemma_next_index(row as int, col as int, w as int);
            }
            col = col + 1;
        }
        proof {
            assert((row + 1) * w == row * w + w) by (nonlinear_arith);
        }
        row = row + 1;
    }
    proof {
        assert(row * w == w * h) by (nonlinear_arith)
            requires row == h;
        assert(w * h == dst.width * dst.height);
    }
}

/// Draws a decoded image of `img_width` by `img_height` RGBA pixels at
/// (`x`, `y`); pixels that fall off the screen are skipped.
pub fn blit_rgba_image(fb: &mut Framebuffer, x: u16, y: u16, img_width: u32, img_height: u32, data: &[u8])
    requires
        old(fb).wf(),
        data@.len() >= 4 * img_width * img_height,
    ensures
        final(fb).wf(),
        final(fb).width == old(fb).width,
        final(fb).height == old(fb).height,
        final(fb).pixels@ == blit_upto(old(fb).pixels@, old(fb).width as int, x as int, y as int,
            img_width as int, data@, (img_width * img_height) as nat),
{
    let ghost old_pixels = fb.pixels@;
    let ghost fb_w = fb.width as int;
    let iw = img_width as u64;
    let ih = img_height as u64;
    let dlen = data.len();
    let mut row: u64 = 0;
    while row < ih
        invariant
            fb.wf(),
            fb.width == old(fb).width,
            fb.height == old(fb).height,
            fb_w == fb.width,
            old_pixels == old(fb).pixels@,
            iw == img_width,
            ih == img_height,
            data@.len() >= 4 * iw * ih,
            dlen == data@.len(),
            row <= ih,
            fb.pixels@ == blit_upto(old_pixels, fb_w, x as int, y as int, iw as int, data@, (row * iw) as nat),
        decreases ih - row,
    {
        let mut col: u64 = 0;
        while col < iw
            invariant
                fb.wf(),
                fb.width == old(fb).width,
                fb.height == old(fb).height,
                fb_w == fb.width,
                old_pixels == old(fb).pixels@,
                iw == img_width,
                ih == img_height,
                data@.len() >= 4 * iw * ih,
                dlen == data@.len(),
                row < ih,
                col <= iw,
                fb.pixels@ == blit_upto(old_pixels, fb_w, x as int, y as int, iw as int, data@, (row * iw + col) as nat),
            decreases iw - col,
        {
            proof {
                lemma_row_col(row as int, col as int, iw as int);
                assert(4 * (row * iw + col) + 3 < 4 * iw * ih) by (nonlinear_arith)
                    requires row < ih, col < iw;
                assert(0 <= row * iw) by (nonlinear_arith);
            }
            let ghost k = row * iw + col;
            let src: usize = ((row * iw + col) * 4) as usize;
            let px = Rgb { r: data[src], g: data[src + 1], b: data[src + 2] };
            assert(px == rgba_pixel(data@, k));
            match screen_index(fb, x as u64, y as u64, row, col) {
                Some(d) => {
                    fb.pixels.set(d, px);
                },
                None => {},
            }
            proof {
                lemma_next_index(row as int, col as int, iw as int);
            }
            col = col + 1;
        }
        proof {
            assert((row + 1) * iw == row * iw + iw) by (nonlinear_arith);
        }
        row = row + 1;
    }
    proof {
        assert(row * iw == iw * ih) by (nonlinear_arith)
            requires row == ih;
    }
}

/// Shift makes a letter key send the capital letter: the keysym of a letter
/// with Shift is the one without it less 0x20.
pub proof fn lemma_shift_letters(key: Key)
    requires
        keysym_spec(key, false) matches Some(u) && 0x61 <= u <= 0x7a,
    ensures
        keysym_spec(key, true) == Some((keysym_spec(key, false)->0 - 0x20) as u32),
{
}


/// A screen update from the VNC server.
#[derive(Debug, Clone)]
pub enum VncUpdate {
    /// The server announced the size of its screen.
    Resize { width: u16, height: u16 },
    /// Raw RGBA pixels for a rectangle.
    Raw { rect: VncRect, data: Vec<u8> },
    /// A rectangle copied from elsewhere on the screen.
    Copy { src: VncRect, dst: VncRect },
    /// A JPEG image for a rectangle (Tight encoding).
    Jpeg { rect: VncRect, data: Vec<u8> },
    /// Anything the display does not draw (cursor shape, bell, clipboard).
    Ignored,
}

/// Whether the `image` crate decodes JPEG data, and the width and height
/// of the image it finds there.
pub uninterp spec fn jpeg_size(data: Seq<u8>) -> Option<(u32, u32)>;

/// `image::load_from_memory_with_format(data, ImageFormat::Jpeg)` followed
/// by `to_rgba8`, `width`, `height` and `into_raw`.  Whether the data
/// decodes, and to what size, is named `jpeg_size`; an `ImageBuffer` holds
/// at least four bytes for each of its RGBA pixels.  The pixel values are
/// left unsaid: the decoder converts colours with separate vector and
/// scalar routines, and its source does not show that they agree to the
/// bit.
#[verifier::external_body]
fn decode_jpeg(data: &[u8]) -> (r: Option<(u32, u32, Vec<u8>)>)
    ensures
        match r {
            Some((w, h, px)) => jpeg_size(data@) == Some((w, h)) && px@.len() >= 4 * w * h,
            None => jpeg_size(data@) is None,
        },
{
    match image::load_from_memory_with_format(data, image::ImageFormat::Jpeg) {
        Ok(img) => {
            let rgba = img.to_rgba8();
            Some((rgba.width(), rgba.height(), rgba.into_raw()))
        },
        Err(_) => None,
    }
}

/// `new` is `old` with an image of `w` by `h` RGBA pixels drawn at the
/// position of `rect`, for some pixel values.
pub open spec fn image_drawn(old: Seq<Rgb>, fb_w: int, rect: VncRect, w: u32, h: u32, new: Seq<Rgb>) -> bool {
    exists|px: Seq<u8>| px.len() >= 4 * w * h
        && new == #[trigger] blit_upto(old, fb_w, rect.x as int, rect.y as int, w as int, px, (w * h) as nat)
}

/// Applies one update of the server to the screen held so far (none before
/// the server announced its size) and says whether the screen changed: a
/// size announcement starts a new black screen, pixel data and copies are
/// drawn onto the screen there is (a JPEG image once decoded; one that does
/// not decode is dropped), and the rest is passed over.
pub fn apply_vnc_update(screen: &mut Option<Framebuffer>, update: &VncUpdate) -> (dirty: bool)
    requires
        *old(screen) matches Some(fb) ==> fb.wf(),
    ensures
        *final(screen) matches Some(fb) ==> fb.wf(),
        match *update {
            VncUpdate::Resize { width, height } => {
                &&& dirty
                &&& *final(screen) matches Some(fb)
                &&& fb.width == width
                &&& fb.height == height
                &&& forall|i: int| 0 <= i < fb.pixels@.len() ==> fb.pixels@[i] == black()
            },
            VncUpdate::Raw { rect, data } => match *old(screen) {
                Some(old_fb) => {
                    &&& dirty
                    &&& *final(screen) matches Some(fb)
                    &&& fb.width == old_fb.width
                    &&& fb.height == old_fb.height
                    &&& fb.pixels@ == blit_upto(old_fb.pixels@, old_fb.width as int, rect.x as int,
                        rect.y as int, rect.width as int, data@,
                        if (rect.width * rect.height) as nat <= rgba_count(data@.len()) {
                            (rect.width * rect.height) as nat
                        } else {
                            rgba_count(data@.len())
                        })
                },
                None => !dirty && *final(screen) == *old(screen),
            },
            VncUpdate::Copy { src, dst } => match *old(screen) {
                Some(old_fb) => {
                    &&& dirty
                    &&& *final(screen) matches Some(fb)
                    &&& fb.width == old_fb.width
                    &&& fb.height == old_fb.height
                    &&& fb.pixels@ == copy_upto(old_fb.pixels@, old_fb.pixels@, old_fb.width as int,
                        src, dst, (dst.width * dst.height) as nat)
                },
                None => !dirty && *final(screen) == *old(screen),
            },
            VncUpdate::Jpeg { rect, data } => match (jpeg_size(data@), *old(screen)) {
                (Some((w, h)), Some(old_fb)) => {
                    &&& dirty
                    &&& *final(screen) matches Some(fb)
                    &&& fb.width == old_fb.width
                    &&& fb.height == old_fb.height
                    &&& image_drawn(old_fb.pixels@, old_fb.width as int, rect, w, h, fb.pixels@)
                },
                _ => !dirty && *final(screen) == *old(screen),
            },
            VncUpdate::Ignored => !dirty && *final(screen) == *old(screen),
        },
{
    match update {
        VncUpdate::Resize { width, height } => {
            *screen = Some(Framebuffer::new(*width, *height));
            true
        },
        VncUpdate::Raw { rect, data } => {
            match screen {
                Some(fb) => {
                    blit_rgba(fb, rect, data.as_slice());
                    true
                },
                None => false,
            }
        },
        VncUpdate::Copy { src, dst } => {
            match screen {
                Some(fb) => {
                    copy_rect(fb, src, dst);
                    true
                },
                None => false,
            }
        },
        VncUpdate::Jpeg { rect, data } => {
            match screen {
                Some(fb) => match decode_jpeg(data.as_slice()) {
                    Some((w, h, px)) => {
                        let ghost before = fb.pixels@;
                        let ghost fb_w = fb.width as int;
                        blit_rgba_image(fb, rect.x, rect.y, w, h, px.as_slice());
                        assert(fb.pixels@ == blit_upto(before, fb_w, rect.x as int, rect.y as int, w as int,
                            px@, (w * h) as nat));
                        assert(image_drawn(before, fb_w, *rect, w, h, fb.pixels@));
                        true
                    },
                    None => false,
                },
                None => false,
            }
        },
        VncUpdate::Ignored => false,
    }
}

/// The step of a VNC session at which it can fail.
#[derive(Debug, Clone, Copy, PartialEq, Eq, Structural)]
pub enum VncFailure {
    /// Opening the TCP connection.
    Connect,
    /// Configuring the client.
    Build,
    /// The protocol handshake and authentication.
    Handshake,
    /// Leaving the handshake for the session.
    Finish,
    /// Asking for the first full screen.
    Refresh,
    /// Receiving an update during the session.
    Receive,
}

/// The words that open the message of a failure at `stage`.
pub open spec fn failure_prefix(stage: VncFailure) -> Seq<char> {
    match stage {
        VncFailure::Connect => "Connect failed: "@,
        VncFailure::Build => "VNC build failed: "@,
        VncFailure::Handshake => "VNC handshake failed: "@,
        VncFailure::Finish => "VNC finish failed: "@,
        VncFailure::Refresh => "Refresh failed: "@,
        VncFailure::Receive => "VNC error: "@,
    }
}

/// The status a VNC session ends in when `stage` fails with `detail`.
pub fn failure_status(stage: VncFailure, detail: &str) -> (r: ConsoleStatus)
    ensures
        r matches ConsoleStatus::Error(m) && m@ == failure_prefix(stage) + detail@,
{
    let mut m = match stage {
        VncFailure::Connect => owned("Connect failed: "),
        VncFailure::Build => owned("VNC build failed: "),
        VncFailure::Handshake => owned("VNC handshake failed: "),
        VncFailure::Finish => owned("VNC finish failed: "),
        VncFailure::Refresh => owned("Refresh failed: "),
        VncFailure::Receive => owned("VNC error: "),
    };
    push_str(&mut m, detail);
    ConsoleStatus::Error(m)
}

} // verus!
