//! The serial console: the bytes a key sends and the screen drawn from the
//! terminal emulator's cells.
use vstd::prelude::*;
use crate::console::vnc::{Key, Rgb};
use crate::console::ConsoleStatus;
use crate::text::{owned, push_str};

verus! {

/// The bytes the serial console sends for a key, if any.
pub open spec fn key_bytes_spec(key: Key) -> Option<Seq<u8>> {
    match key {
        Key::Enter => Some(seq![13u8]),
        Key::Backspace => Some(seq![127u8]),
        Key::Tab => Some(seq![9u8]),
        Key::Escape => Some(seq![27u8]),
        Key::ArrowUp => Some(seq![27u8, 91u8, 65u8]),
        Key::ArrowDown => Some(seq![27u8, 91u8, 66u8]),
        Key::ArrowRight => Some(seq![27u8, 91u8, 67u8]),
        Key::ArrowLeft => Some(seq![27u8, 91u8, 68u8]),
        Key::Home => Some(seq![27u8, 91u8, 72u8]),
        Key::End => Some(seq![27u8, 91u8, 70u8]),
        Key::PageUp => Some(seq![27u8, 91u8, 53u8, 126u8]),
        Key::PageDown => Some(seq![27u8, 91u8, 54u8, 126u8]),
        Key::Delete => Some(seq![27u8, 91u8, 51u8, 126u8]),
        Key::Insert => Some(seq![27u8, 91u8, 50u8, 126u8]),
        _ => None,
    }
}

/// The bytes sent to the serial console for a special key: a control
/// character or an ANSI escape sequence.
pub fn serial_key_bytes(key: Key) -> (r: Option<Vec<u8>>)
    ensures
        match r {
            Some(b) => key_bytes_spec(key) == Some(b@),
            None => key_bytes_spec(key) is None,
        },
{
    let r: Option<Vec<u8>> = match key {
        Key::Enter => Some(vec![13u8]),
        Key::Backspace => Some(vec![127u8]),
        Key::Tab => Some(vec![9u8]),
        Key::Escape => Some(vec![27u8]),
        Key::ArrowUp => Some(vec![27u8, 91u8, 65u8]),
        Key::ArrowDown => Some(vec![27u8, 91u8, 66u8]),
        Key::ArrowRight => Some(vec![27u8, 91u8, 67u8]),
        Key::ArrowLeft => Some(vec![27u8, 91u8, 68u8]),
        Key::Home => Some(vec![27u8, 91u8, 72u8]),
        Key::End => Some(vec![27u8, 91u8, 70u8]),
        Key::PageUp => Some(vec![27u8, 91u8, 53u8, 126u8]),
        Key::PageDown => Some(vec![27u8, 91u8, 54u8, 126u8]),
        Key::Delete => Some(vec![27u8, 91u8, 51u8, 126u8]),
        Key::Insert => Some(vec![27u8, 91u8, 50u8, 126u8]),
        _ => None,
    };
    proof {
        if r is Some {
            assert(key_bytes_spec(key) == Some(r->0@));
        }
    }
    r
}


/// The light grey that text is drawn in by default.
pub open spec fn light_gray() -> Rgb {
    Rgb { r: 160, g: 160, b: 160 }
}

/// The colour of entry `idx` of the 256-colour palette of xterm: the 16
/// system colours, the 6x6x6 colour cube and the 24 greys.
pub open spec fn ansi_color(idx: u8) -> Rgb {
    if idx < 16 {
        match idx {
        0 => Rgb { r: 0, g: 0, b: 0 },
        1 => Rgb { r: 205, g: 0, b: 0 },
        2 => Rgb { r: 0, g: 205, b: 0 },
        3 => Rgb { r: 205, g: 205, b: 0 },
        4 => Rgb { r: 0, g: 0, b: 238 },
        5 => Rgb { r: 205, g: 0, b: 205 },
        6 => Rgb { r: 0, g: 205, b: 205 },
        7 => Rgb { r: 229, g: 229, b: 229 },
        8 => Rgb { r: 127, g: 127, b: 127 },
        9 => Rgb { r: 255, g: 0, b: 0 },
        10 => Rgb { r: 0, g: 255, b: 0 },
        11 => Rgb { r: 255, g: 255, b: 0 },
        12 => Rgb { r: 92, g: 92, b: 255 },
        13 => Rgb { r: 255, g: 0, b: 255 },
        14 => Rgb { r: 0, g: 255, b: 255 },
        15 => Rgb { r: 255, g: 255, b: 255 },
            _ => Rgb { r: 255, g: 255, b: 255 },
        }
    } else if idx <= 231 {
        let n = idx - 16;
        Rgb { r: ((n / 36) * 51) as u8, g: (((n / 6) % 6) * 51) as u8, b: ((n % 6) * 51) as u8 }
    } else {
        let gray = (8 + (idx - 232) * 10) as u8;
        Rgb { r: gray, g: gray, b: gray }
    }
}

/// The colour of an entry of the 256-colour palette.
pub fn ansi_index_to_color(idx: u8) -> (r: Rgb)
    ensures
        r == ansi_color(idx),
{
    if idx < 16 {
        match idx {
        0 => Rgb { r: 0, g: 0, b: 0 },
        1 => Rgb { r: 205, g: 0, b: 0 },
        2 => Rgb { r: 0, g: 205, b: 0 },
        3 => Rgb { r: 205, g: 205, b: 0 },
        4 => Rgb { r: 0, g: 0, b: 238 },
        5 => Rgb { r: 205, g: 0, b: 205 },
        6 => Rgb { r: 0, g: 205, b: 205 },
        7 => Rgb { r: 229, g: 229, b: 229 },
        8 => Rgb { r: 127, g: 127, b: 127 },
        9 => Rgb { r: 255, g: 0, b: 0 },
        10 => Rgb { r: 0, g: 255, b: 0 },
        11 => Rgb { r: 255, g: 255, b: 0 },
        12 => Rgb { r: 92, g: 92, b: 255 },
        13 => Rgb { r: 255, g: 0, b: 255 },
        14 => Rgb { r: 0, g: 255, b: 255 },
        15 => Rgb { r: 255, g: 255, b: 255 },
            _ => Rgb { r: 255, g: 255, b: 255 },
        }
    } else if idx <= 231 {
        let n = idx - 16;
        Rgb { r: (n / 36) * 51, g: ((n / 6) % 6) * 51, b: (n % 6) * 51 }
    } else {
        let gray = 8 + (idx - 232) * 10;
        Rgb { r: gray, g: gray, b: gray }
    }
}

/// A colour as the terminal emulator reports it.
#[derive(Debug, Clone, Copy, PartialEq, Eq, Structural)]
pub enum VtColor {
    Default,
    Idx(u8),
    Rgb(u8, u8, u8),
}

/// The colour a terminal colour is drawn in; the default is black behind
/// the text and light grey for it.
pub open spec fn vt_color(c: VtColor, is_bg: bool) -> Rgb {
    match c {
        VtColor::Default => if is_bg { Rgb { r: 0, g: 0, b: 0 } } else { light_gray() },
        VtColor::Idx(i) => ansi_color(i),
        VtColor::Rgb(r, g, b) => Rgb { r, g, b },
    }
}

pub fn vt_color_to_rgb(c: VtColor, is_bg: bool) -> (r: Rgb)
    ensures
        r == vt_color(c, is_bg),
{
    match c {
        VtColor::Default => if is_bg { Rgb { r: 0, g: 0, b: 0 } } else { Rgb { r: 160, g: 160, b: 160 } },
        VtColor::Idx(i) => ansi_index_to_color(i),
        VtColor::Rgb(r, g, b) => Rgb { r, g, b },
    }
}

/// A cell of the terminal emulator's screen.
#[derive(Debug, Clone)]
pub struct VtCell {
    pub contents: String,
    pub fg: VtColor,
    pub bg: VtColor,
    pub bold: bool,
}

/// A cell of the serial console as it is drawn.
#[derive(Debug, Clone)]
pub struct SerialCell {
    pub ch: String,
    pub fg: Rgb,
    pub bg: Rgb,
    pub bold: bool,
}

/// The serial console's screen: `rows` rows of `cols` cells and the cursor
/// (row, column).
#[derive(Debug)]
pub struct SerialScreen {
    pub rows: u16,
    pub cols: u16,
    pub cells: Vec<Vec<SerialCell>>,
    pub cursor: (u16, u16),
}

/// A blank cell: a space in light grey on black.
pub open spec fn blank_cell(c: SerialCell) -> bool {
    c.ch@ == " "@ && c.fg == light_gray() && c.bg == (Rgb { r: 0, g: 0, b: 0 }) && !c.bold
}

/// How a cell of the emulator is drawn: an empty cell as a space, missing
/// cells blank.
pub open spec fn drawn_cell(v: Option<VtCell>, c: SerialCell) -> bool {
    match v {
        Some(x) => {
            &&& c.ch@ == (if x.contents@.len() == 0 { " "@ } else { x.contents@ })
            &&& c.fg == vt_color(x.fg, false)
            &&& c.bg == vt_color(x.bg, true)
            &&& c.bold == x.bold
        },
        None => blank_cell(c),
    }
}

fn blank() -> (r: SerialCell)
    ensures
        blank_cell(r),
{
    SerialCell { ch: owned(" "), fg: Rgb { r: 160, g: 160, b: 160 }, bg: Rgb { r: 0, g: 0, b: 0 }, bold: false }
}

/// A screen of `rows` by `cols` blank cells with the cursor at the top left.
pub fn make_empty_screen(rows: u16, cols: u16) -> (r: SerialScreen)
    ensures
        r.rows == rows,
        r.cols == cols,
        r.cursor == (0u16, 0u16),
        r.cells@.len() == rows,
        forall|i: int| 0 <= i < rows ==> (#[trigger] r.cells@[i])@.len() == cols,
        forall|i: int, j: int| 0 <= i < rows && 0 <= j < cols ==> blank_cell(#[trigger] r.cells@[i]@[j]),
{
    let mut cells: Vec<Vec<SerialCell>> = Vec::new();
    let mut i: u16 = 0;
    while i < rows
        invariant
            i <= rows,
            cells@.len() == i,
            forall|a: int| 0 <= a < i ==> (#[trigger] cells@[a])@.len() == cols,
            forall|a: int, b: int| 0 <= a < i && 0 <= b < cols ==> blank_cell(#[trigger] cells@[a]@[b]),
        decreases rows - i,
    {
        let mut row: Vec<SerialCell> = Vec::new();
        let mut j: u16 = 0;
        while j < cols
            invariant
                j <= cols,
                row@.len() == j,
                forall|b: int| 0 <= b < j ==> blank_cell(#[trigger] row@[b]),
            decreases cols - j,
        {
            row.push(blank());
            j = j + 1;
        }
        cells.push(row);
        i = i + 1;
    }
    SerialScreen { rows, cols, cells, cursor: (0, 0) }
}

/// The screen drawn from the emulator's `rows` by `cols` cells (`None`
/// where it has no cell) and its cursor.
pub fn screen_from_cells(rows: u16, cols: u16, vt: &Vec<Vec<Option<VtCell>>>, cursor: (u16, u16)) -> (r: SerialScreen)
    requires
        vt@.len() == rows,
        forall|i: int| 0 <= i < rows ==> (#[trigger] vt@[i])@.len() == cols,
    ensures
        r.rows == rows,
        r.cols == cols,
        r.cursor == cursor,
        r.cells@.len() == rows,
        forall|i: int| 0 <= i < rows ==> (#[trigger] r.cells@[i])@.len() == cols,
        forall|i: int, j: int| 0 <= i < rows && 0 <= j < cols ==> drawn_cell(vt@[i]@[j], #[trigger] r.cells@[i]@[j]),
{
    let mut cells: Vec<Vec<SerialCell>> = Vec::new();
    let mut i: u16 = 0;
    while i < rows
        invariant
            i <= rows,
            vt@.len() == rows,
            forall|a: int| 0 <= a < rows ==> (#[trigger] vt@[a])@.len() == cols,
            cells@.len() == i,
            forall|a: int| 0 <= a < i ==> (#[trigger] cells@[a])@.len() == cols,
            forall|a: int, b: int| 0 <= a < i && 0 <= b < cols ==> drawn_cell(vt@[a]@[b], #[trigger] cells@[a]@[b]),
        decreases rows - i,
    {
        let src_row = &vt[i as usize];
        let mut row: Vec<SerialCell> = Vec::new();
        let mut j: u16 = 0;
        while j < cols
            invariant
                j <= cols,
                src_row@.len() == cols,
                *src_row == vt@[i as int],
                row@.len() == j,
                forall|b: int| 0 <= b < j ==> drawn_cell(src_row@[b], #[trigger] row@[b]),
            decreases cols - j,
        {
            let cell = match &src_row[j as usize] {
                Some(x) => {
                    let ch = if x.contents.as_str().is_empty() {
                        owned(" ")
                    } else {
                        x.contents.clone()
                    };
                    SerialCell {
                        ch,
                        fg: vt_color_to_rgb(x.fg, false),
                        bg: vt_color_to_rgb(x.bg, true),
                        bold: x.bold,
                    }
                },
                None => blank(),
            };
            row.push(cell);
            j = j + 1;
        }
        cells.push(row);
        i = i + 1;
    }
    SerialScreen { rows, cols, cells, cursor }
}

/// The shell command that attaches to the serial console of domain `name`
/// of connection `uri`, run under a pseudo-terminal.
pub fn console_command(uri: &str, name: &str) -> (r: String)
    ensures
        r@ == "virsh -c "@ + uri@ + " console "@ + name@,
{
    let mut r = owned("virsh -c ");
    push_str(&mut r, uri);
    push_str(&mut r, " console ");
    push_str(&mut r, name);
    r
}

/// The status of a serial console whose command could not be started.
pub fn start_failed_status(detail: &str) -> (r: ConsoleStatus)
    ensures
        r matches ConsoleStatus::Error(m) && m@ == "Failed to start: "@ + detail@,
{
    let mut m = owned("Failed to start: ");
    push_str(&mut m, detail);
    ConsoleStatus::Error(m)
}

/// The terminal emulator of the serial console: a `vt100::Parser`, whose
/// declaration Verus refuses (its type parameter is bound by a trait of the
/// `vt100` crate), held in a field that only the wrappers below touch.
#[verifier::external_body]
pub struct VtTerminal {
    parser: vt100::Parser,
}

/// A cell as the emulator describes it: contents, foreground and background
/// colours, bold.
pub type VtCellModel = (Seq<char>, VtColor, VtColor, bool);

/// The bytes a terminal emulator has been fed since it was made.
pub uninterp spec fn vt_fed(t: VtTerminal) -> Seq<u8>;

/// The rows and columns a terminal emulator was made with.
pub uninterp spec fn vt_size(t: VtTerminal) -> (u16, u16);

/// What `Screen::cell(row, col)` describes (through `contents`, `fgcolor`,
/// `bgcolor` and `bold`) for an emulator of `rows` by `cols` that was fed
/// `bytes`.
pub uninterp spec fn vt_cell(rows: u16, cols: u16, bytes: Seq<u8>, row: u16, col: u16) -> Option<VtCellModel>;

/// What `Screen::cursor_position` gives (row, column) for an emulator of
/// `rows` by `cols` that was fed `bytes`.
pub uninterp spec fn vt_cursor(rows: u16, cols: u16, bytes: Seq<u8>) -> (u16, u16);

/// The model of a cell of the emulator.
pub open spec fn cell_model(v: Option<VtCell>) -> Option<VtCellModel> {
    match v {
        Some(c) => Some((c.contents@, c.fg, c.bg, c.bold)),
        None => None,
    }
}

/// `vt100::Parser::new(rows, cols, 0)`: an emulator of that size, with no
/// scrollback, fed nothing yet.
#[verifier::external_body]
pub fn new_terminal(rows: u16, cols: u16) -> (p: VtTerminal)
    requires
        rows > 0,
        cols > 0,
    ensures
        vt_fed(p) == Seq::<u8>::empty(),
        vt_size(p) == (rows, cols),
{
    let (r, c) = (std::num::NonZeroU16::new(rows).unwrap(), std::num::NonZeroU16::new(cols).unwrap());
    VtTerminal { parser: vt100::Parser::new(r, c, 0) }
}

/// `Parser::process`: feeds bytes to the emulator; its size stays.
#[verifier::external_body]
pub fn feed_terminal(p: &mut VtTerminal, bytes: &[u8])
    ensures
        vt_fed(*final(p)) == vt_fed(*old(p)) + bytes@,
        vt_size(*final(p)) == vt_size(*old(p)),
{
    p.parser.process(bytes)
}

/// `Screen::size`, as plain numbers.
#[verifier::external_body]
fn terminal_size(p: &VtTerminal) -> (r: (u16, u16))
    ensures
        r == vt_size(*p),
{
    let (rows, cols) = p.parser.screen().size();
    (rows.get(), cols.get())
}

/// `Screen::cursor_position`.
#[verifier::external_body]
fn terminal_cursor(p: &VtTerminal) -> (r: (u16, u16))
    ensures
        r == vt_cursor(vt_size(*p).0, vt_size(*p).1, vt_fed(*p)),
{
    p.parser.screen().cursor_position()
}

/// `Screen::cell`, read through `contents`, `fgcolor`, `bgcolor` and `bold`.
#[verifier::external_body]
fn terminal_cell(p: &VtTerminal, row: u16, col: u16) -> (r: Option<VtCell>)
    ensures
        cell_model(r) == vt_cell(vt_size(*p).0, vt_size(*p).1, vt_fed(*p), row, col),
{
    let color = |k: vt100::Color| match k {
        vt100::Color::Default => VtColor::Default,
        vt100::Color::Idx(i) => VtColor::Idx(i),
        vt100::Color::Rgb(r, g, b) => VtColor::Rgb(r, g, b),
    };
    match p.parser.screen().cell(row, col) {
        Some(c) => Some(VtCell { contents: c.contents().to_string(), fg: color(c.fgcolor()), bg: color(c.bgcolor()), bold: c.bold() }),
        None => None,
    }
}

/// How a cell described by the emulator is drawn.
pub open spec fn drawn_model(m: Option<VtCellModel>, c: SerialCell) -> bool {
    match m {
        Some((contents, fg, bg, bold)) => {
            &&& c.ch@ == (if contents.len() == 0 { " "@ } else { contents })
            &&& c.fg == vt_color(fg, false)
            &&& c.bg == vt_color(bg, true)
            &&& c.bold == bold
        },
        None => blank_cell(c),
    }
}

/// The serial console's screen as the emulator now shows it: its size, its
/// cursor and every cell drawn.
pub fn sync_screen(p: &VtTerminal) -> (r: SerialScreen)
    ensures
        (r.rows, r.cols) == vt_size(*p),
        r.cursor == vt_cursor(vt_size(*p).0, vt_size(*p).1, vt_fed(*p)),
        r.cells@.len() == r.rows,
        forall|i: int| 0 <= i < r.rows ==> (#[trigger] r.cells@[i])@.len() == r.cols,
        forall|i: int, j: int| 0 <= i < r.rows && 0 <= j < r.cols ==> drawn_model(
            vt_cell(r.rows, r.cols, vt_fed(*p), i as u16, j as u16),
            #[trigger] r.cells@[i]@[j],
        ),
{
    let (rows, cols) = terminal_size(p);
    let cursor = terminal_cursor(p);
    let mut vt: Vec<Vec<Option<VtCell>>> = Vec::new();
    let mut i: u16 = 0;
    while i < rows
        invariant
            i <= rows,
            (rows, cols) == vt_size(*p),
            vt@.len() == i,
            forall|a: int| 0 <= a < i ==> (#[trigger] vt@[a])@.len() == cols,
            forall|a: int, b: int| 0 <= a < i && 0 <= b < cols ==> cell_model(#[trigger] vt@[a]@[b])
                == vt_cell(rows, cols, vt_fed(*p), a as u16, b as u16),
        decreases rows - i,
    {
        let mut row: Vec<Option<VtCell>> = Vec::new();
        let mut j: u16 = 0;
        while j < cols
            invariant
                j <= cols,
                i < rows,
                (rows, cols) == vt_size(*p),
                row@.len() == j,
                forall|b: int| 0 <= b < j ==> cell_model(#[trigger] row@[b])
                    == vt_cell(rows, cols, vt_fed(*p), i, b as u16),
            decreases cols - j,
        {
            row.push(terminal_cell(p, i, j));
            j = j + 1;
        }
        vt.push(row);
        i = i + 1;
    }
    let r = screen_from_cells(rows, cols, &vt, cursor);
    assert forall|a: int, b: int| 0 <= a < rows && 0 <= b < cols implies drawn_model(
        vt_cell(rows, cols, vt_fed(*p), a as u16, b as u16),
        #[trigger] r.cells@[a]@[b],
    ) by {
        assert(drawn_cell(vt@[a]@[b], r.cells@[a]@[b]));
    }
    r
}

} // verus!
