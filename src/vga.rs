use vstd::prelude::*;
use vstd::string::StringSliceAdditionalSpecFns;

verus! {

/// Columns of the text screen.
pub const WIDTH: usize = 80;

/// Rows of the text screen.
pub const HEIGHT: usize = 25;

/// Cells of the text screen.
pub const CELLS: usize = 2000;

/// The blank character.
pub const SPACE: u8 = 0x20;

/// The line-break character.
pub const NEWLINE: u8 = 0x0a;

/// What is shown for a byte that cannot be shown.
pub const REPLACEMENT: u8 = 0x3f;

/// The sixteen text-mode colours, in hardware order (black is 0, white is 15).
#[derive(Clone, Copy, Debug, PartialEq, Eq, Structural)]
pub enum Colour {
    Black,
    Blue,
    Green,
    Cyan,
    Red,
    Magenta,
    Brown,
    LightGray,
    DarkGray,
    LightBlue,
    LightGreen,
    LightCyan,
    LightRed,
    Pink,
    Yellow,
    White,
}

/// One cell of the text buffer: a character byte and its attribute byte.
#[derive(Clone, Copy, Debug, PartialEq, Eq, Structural)]
pub struct ScreenChar {
    pub character: u8,
    pub colour: u8,
}

/// The text screen: its cells row by row, the current colours and the cursor.
#[derive(Debug)]
pub struct Screen {
    buffer: Vec<ScreenChar>,
    foreground: Colour,
    background: Colour,
    x: usize,
    y: usize,
}

/// What a screen holds: its cells row by row, and the cursor column and row.
pub struct ScreenModel {
    pub cells: Seq<ScreenChar>,
    pub x: int,
    pub y: int,
}

/// The hardware number of a colour.
pub open spec fn colour_index(c: Colour) -> u8 {
    match c {
        Colour::Black => 0,
        Colour::Blue => 1,
        Colour::Green => 2,
        Colour::Cyan => 3,
        Colour::Red => 4,
        Colour::Magenta => 5,
        Colour::Brown => 6,
        Colour::LightGray => 7,
        Colour::DarkGray => 8,
        Colour::LightBlue => 9,
        Colour::LightGreen => 10,
        Colour::LightCyan => 11,
        Colour::LightRed => 12,
        Colour::Pink => 13,
        Colour::Yellow => 14,
        Colour::White => 15,
    }
}

/// The attribute byte: foreground in the low four bits, background in the high four.
pub open spec fn attribute(fg: Colour, bg: Colour) -> u8 {
    (colour_index(fg) + 16 * colour_index(bg)) as u8
}

pub open spec fn cell(c: u8, fg: Colour, bg: Colour) -> ScreenChar {
    ScreenChar { character: c, colour: attribute(fg, bg) }
}

/// The byte that is shown for `b`: printable bytes and newline as they are, '?' for others.
pub open spec fn shown(b: u8) -> u8 {
    if (32 <= b && b <= 176) || b == 10 {
        b
    } else {
        63
    }
}

/// The cells after every row moved up by one and the last row filled with `blank`.
pub open spec fn scrolled(cells: Seq<ScreenChar>, blank: ScreenChar) -> Seq<ScreenChar> {
    Seq::new(
        CELLS as nat,
        |i: int|
            if i < CELLS - WIDTH {
                cells[i + WIDTH]
            } else {
                blank
            },
    )
}

/// The screen after a scroll: the cursor row moves up with the text, the column stays.
pub open spec fn scroll_model(m: ScreenModel, blank: ScreenChar) -> ScreenModel {
    ScreenModel {
        cells: scrolled(m.cells, blank),
        x: m.x,
        y: if m.y > 0 {
            m.y - 1
        } else {
            0
        },
    }
}

/// The screen after a line break: column 0 of the next row, scrolling past the last row.
pub open spec fn new_line_model(m: ScreenModel, blank: ScreenChar) -> ScreenModel {
    if m.y + 1 >= HEIGHT {
        scroll_model(ScreenModel { cells: m.cells, x: 0, y: m.y + 1 }, blank)
    } else {
        ScreenModel { cells: m.cells, x: 0, y: m.y + 1 }
    }
}

/// The screen after writing byte `b` in colours `fg` on `bg`: a newline breaks the line,
/// anything else is shown at the cursor, which advances and wraps at the last column.
pub open spec fn write_byte_model(m: ScreenModel, b: u8, fg: Colour, bg: Colour) -> ScreenModel {
    let blank = cell(32, fg, bg);
    if shown(b) == 10 {
        new_line_model(m, blank)
    } else {
        let put = ScreenModel {
            cells: m.cells.update(m.y * WIDTH + m.x, cell(shown(b), fg, bg)),
            x: m.x + 1,
            y: m.y,
        };
        if put.x >= WIDTH {
            new_line_model(put, blank)
        } else {
            put
        }
    }
}

/// The screen after writing the bytes `bs` in order.
pub open spec fn write_bytes_model(m: ScreenModel, bs: Seq<u8>, fg: Colour, bg: Colour) -> ScreenModel
    decreases bs.len(),
{
    if bs.len() == 0 {
        m
    } else {
        write_byte_model(write_bytes_model(m, bs.drop_last(), fg, bg), bs.last(), fg, bg)
    }
}

pub open spec fn model_wf(m: ScreenModel) -> bool {
    m.cells.len() == CELLS && 0 <= m.x < WIDTH && 0 <= m.y < HEIGHT
}

fn colour_value(c: Colour) -> (r: u8)
    ensures
        r == colour_index(c),
        r < 16,
{
    match c {
        Colour::Black => 0,
        Colour::Blue => 1,
        Colour::Green => 2,
        Colour::Cyan => 3,
        Colour::Red => 4,
        Colour::Magenta => 5,
        Colour::Brown => 6,
        Colour::LightGray => 7,
        Colour::DarkGray => 8,
        Colour::LightBlue => 9,
        Colour::LightGreen => 10,
        Colour::LightCyan => 11,
        Colour::LightRed => 12,
        Colour::Pink => 13,
        Colour::Yellow => 14,
        Colour::White => 15,
    }
}

/// The attribute byte of a foreground on a background.
pub fn colour_as_byte(fg: Colour, bg: Colour) -> (r: u8)
    ensures
        r == attribute(fg, bg),
{
    let f = colour_value(fg);
    let b = colour_value(bg);
    assert(f | (b << 4u8) == f + 16 * b) by (bit_vector)
        requires
            f < 16,
            b < 16,
    ;
    f | (b << 4)
}

impl ScreenChar {
    /// The cell showing `c` in `fg` on `bg`.
    pub fn new(c: u8, fg: Colour, bg: Colour) -> (r: ScreenChar)
        ensures
            r == cell(c, fg, bg),
    {
        ScreenChar { character: c, colour: colour_as_byte(fg, bg) }
    }
}

impl View for Screen {
    type V = ScreenModel;

    closed spec fn view(&self) -> ScreenModel {
        ScreenModel { cells: self.buffer@, x: self.x as int, y: self.y as int }
    }
}

impl Screen {
    pub closed spec fn fg(&self) -> Colour {
        self.foreground
    }

    pub closed spec fn bg(&self) -> Colour {
        self.background
    }

    pub open spec fn wf(&self) -> bool {
        model_wf(self@)
    }

    pub open spec fn blank(&self) -> ScreenChar {
        cell(32, self.fg(), self.bg())
    }

    /// A cleared screen in the given colours, cursor at the top left.
    pub fn with_colours(fg: Colour, bg: Colour) -> (r: Screen)
        ensures
            r.wf(),
            r.fg() == fg,
            r.bg() == bg,
            r@.x == 0,
            r@.y == 0,
            r@.cells == Seq::new(CELLS as nat, |i: int| cell(32, fg, bg)),
    {
        let mut s = Screen { buffer: Vec::new(), foreground: fg, background: bg, x: 0, y: 0 };
        let blank = s.screen_char(SPACE);
        while s.buffer.len() < CELLS
            invariant
                s.buffer@.len() <= CELLS,
                forall|i: int| 0 <= i < s.buffer@.len() ==> #[trigger] s.buffer@[i] == blank,
                blank == cell(32, fg, bg),
                s.foreground == fg,
                s.background == bg,
                s.x == 0,
                s.y == 0,
            decreases CELLS - s.buffer@.len(),
        {
            s.buffer.push(blank);
        }
        assert(s.buffer@ =~= Seq::new(CELLS as nat, |i: int| cell(32, fg, bg)));
        s
    }

    /// Changes the foreground and/or the background, where given.
    pub fn set_colours(&mut self, fg: Option<Colour>, bg: Option<Colour>)
        ensures
            final(self)@ == old(self)@,
            final(self).fg() == (match fg {
                Some(c) => c,
                None => old(self).fg(),
            }),
            final(self).bg() == (match bg {
                Some(c) => c,
                None => old(self).bg(),
            }),
    {
        if let Some(c) = fg {
            self.foreground = c;
        }
        if let Some(c) = bg {
            self.background = c;
        }
    }

    /// The cell showing `c` in the current colours.
    pub fn screen_char(&self, c: u8) -> (r: ScreenChar)
        ensures
            r == cell(c, self.fg(), self.bg()),
    {
        ScreenChar::new(c, self.foreground, self.background)
    }

    /// Blanks every cell in the current colours and moves the cursor to the top left.
    pub fn clear(&mut self)
        requires
            old(self).wf(),
        ensures
            final(self).wf(),
            final(self).fg() == old(self).fg(),
            final(self).bg() == old(self).bg(),
            final(self)@.x == 0,
            final(self)@.y == 0,
            final(self)@.cells == Seq::new(CELLS as nat, |i: int| old(self).blank()),
    {
        let blank = self.screen_char(SPACE);
        let mut i: usize = 0;
        while i < CELLS
            invariant
                self.buffer@.len() == CELLS,
                i <= CELLS,
                forall|j: int| 0 <= j < i ==> #[trigger] self.buffer@[j] == blank,
                self.foreground == old(self).foreground,
                self.background == old(self).background,
                self.x == old(self).x,
                self.y == old(self).y,
                self.y < HEIGHT,
                self.x < WIDTH,
                blank == old(self).blank(),
            decreases CELLS - i,
        {
            self.buffer.set(i, blank);
            i = i + 1;
        }
        self.x = 0;
        self.y = 0;
        assert(self.buffer@ =~= Seq::new(CELLS as nat, |i: int| blank));
    }

    /// Moves every row up by one, blanks the last row, and moves the cursor row up with the
    /// text (it stays at the top).
    pub fn scroll_down(&mut self)
        requires
            old(self).wf(),
        ensures
            final(self).wf(),
            final(self).fg() == old(self).fg(),
            final(self).bg() == old(self).bg(),
            final(self)@ == scroll_model(old(self)@, old(self).blank()),
    {
        let ghost old_cells = self.buffer@;
        let mut i: usize = 0;
        while i < CELLS - WIDTH
            invariant
                self.buffer@.len() == CELLS,
                i <= CELLS - WIDTH,
                old_cells.len() == CELLS,
                forall|j: int| 0 <= j < i ==> #[trigger] self.buffer@[j] == old_cells[j + WIDTH],
                forall|j: int| i <= j < CELLS ==> #[trigger] self.buffer@[j] == old_cells[j],
                self.foreground == old(self).foreground,
                self.background == old(self).background,
                self.x == old(self).x,
                self.y == old(self).y,
                self.y < HEIGHT,
                self.x < WIDTH,
            decreases CELLS - WIDTH - i,
        {
            let c = self.buffer[i + WIDTH];
            self.buffer.set(i, c);
            i = i + 1;
        }
        let blank = self.screen_char(SPACE);
        while i < CELLS
            invariant
                self.buffer@.len() == CELLS,
                CELLS - WIDTH <= i <= CELLS,
                old_cells.len() == CELLS,
                forall|j: int|
                    0 <= j < CELLS - WIDTH ==> #[trigger] self.buffer@[j] == old_cells[j + WIDTH],
                forall|j: int| CELLS - WIDTH <= j < i ==> #[trigger] self.buffer@[j] == blank,
                blank == old(self).blank(),
                self.foreground == old(self).foreground,
                self.background == old(self).background,
                self.x == old(self).x,
                self.y == old(self).y,
                self.y < HEIGHT,
                self.x < WIDTH,
            decreases CELLS - i,
        {
            self.buffer.set(i, blank);
            i = i + 1;
        }
        if self.y > 0 {
            self.y = self.y - 1;
        }
        assert(self.buffer@ =~= scrolled(old_cells, blank));
    }

    /// Moves the cursor to the start of the next row, scrolling when it passes the last row.
    pub fn new_line(&mut self)
        requires
            old(self).wf(),
        ensures
            final(self).wf(),
            final(self).fg() == old(self).fg(),
            final(self).bg() == old(self).bg(),
            final(self)@ == new_line_model(old(self)@, old(self).blank()),
    {
        self.x = 0;
        if self.y + 1 >= HEIGHT {
            self.scroll_down();
            self.y = HEIGHT - 1;
        } else {
            self.y = self.y + 1;
        }
    }

    /// Writes one byte at the cursor ('?' for a byte that cannot be shown; a newline breaks
    /// the line) and advances the cursor, wrapping at the last column.
    pub fn write_byte(&mut self, b: u8)
        requires
            old(self).wf(),
        ensures
            final(self).wf(),
            final(self).fg() == old(self).fg(),
            final(self).bg() == old(self).bg(),
            final(self)@ == write_byte_model(old(self)@, b, old(self).fg(), old(self).bg()),
    {
        let b = if (32 <= b && b <= 176) || b == NEWLINE {
            b
        } else {
            REPLACEMENT
        };
        let new_line = b == NEWLINE;
        if !new_line {
            let c = self.screen_char(b);
            assert(self.y * WIDTH + self.x < CELLS) by (nonlinear_arith)
                requires
                    self.y < HEIGHT,
                    self.x < WIDTH,
            ;
            self.buffer.set(self.y * WIDTH + self.x, c);
            self.x = self.x + 1;
        }
        if new_line || self.x >= WIDTH {
            if self.x >= WIDTH {
                self.x = 0;
            }
            self.new_line();
        }
    }

    /// Writes the bytes of `s` in order.
    pub fn write_string(&mut self, s: &str)
        requires
            old(self).wf(),
        ensures
            final(self).wf(),
            final(self).fg() == old(self).fg(),
            final(self).bg() == old(self).bg(),
            final(self)@ == write_bytes_model(old(self)@, s.spec_bytes(), old(self).fg(), old(self).bg()),
    {
        let bytes = s.as_bytes();
        let mut i: usize = 0;
        while i < bytes.len()
            invariant
                self.wf(),
                i <= bytes@.len(),
                bytes@ == s.spec_bytes(),
                self.fg() == old(self).fg(),
                self.bg() == old(self).bg(),
                self@ == write_bytes_model(old(self)@, bytes@.subrange(0, i as int), self.fg(), self.bg()),
            decreases bytes@.len() - i,
        {
            self.write_byte(bytes[i]);
            proof {
                assert(bytes@.subrange(0, i + 1).drop_last() =~= bytes@.subrange(0, i as int));
            }
            i = i + 1;
        }
        assert(bytes@.subrange(0, bytes@.len() as int) =~= bytes@);
    }

    /// The cell at `row`, `col`.
    pub fn char_at(&self, row: usize, col: usize) -> (r: ScreenChar)
        requires
            self.wf(),
            row < HEIGHT,
            col < WIDTH,
        ensures
            r == self@.cells[row * WIDTH + col],
    {
        assert(row * WIDTH + col < CELLS) by (nonlinear_arith)
            requires
                row < HEIGHT,
                col < WIDTH,
        ;
        self.buffer[row * WIDTH + col]
    }

    /// The cursor as (column, row).
    pub fn cursor(&self) -> (r: (usize, usize))
        ensures
            r.0 == self@.x,
            r.1 == self@.y,
    {
        (self.x, self.y)
    }
}

impl Default for Screen {
    /// A cleared screen, white on black.
    fn default() -> (r: Screen)
        ensures
            r.wf(),
            r.fg() == Colour::White,
            r.bg() == Colour::Black,
            r@.x == 0,
            r@.y == 0,
    {
        Screen::with_colours(Colour::White, Colour::Black)
    }
}

} // verus!
