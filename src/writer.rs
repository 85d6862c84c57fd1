//! The VGA text writer: a 25 x 80 screen of attributed characters written on
//! its last row, scrolling up at each new line.
use vstd::prelude::*;

use crate::vga::{VgaAttr, VgaBgColour, VgaFgColour};
use vstd::string::StringSliceAdditionalSpecFns;

verus! {

/// Number of rows on the screen.
pub const VGA_BUFFER_HEIGHT: usize = 25;
/// Number of columns on the screen.
pub const VGA_BUFFER_WIDTH: usize = 80;
/// Number of cells on the screen.
pub const VGA_BUFFER_CELLS: usize = 2000;
/// Index of the first cell of the last row.
pub const LAST_ROW_START: usize = 1920;
/// Columns between two tab stops.
pub const TAB_WIDTH: usize = 4;
/// First printable byte.
pub const PRINTABLE_RANGE_START: u8 = 0x20;
/// Last printable byte.
pub const PRINTABLE_RANGE_END: u8 = 0x7E;
/// Byte shown in place of one that cannot be printed.
pub const VGA_UNPRINTABLE: u8 = 0xFE;
/// A blank cell's byte.
pub const VGA_WHITESPACE: u8 = 0x20;
/// Byte that erases the previous character.
pub const BACKSPACE_BYTE: u8 = 0x08;
/// Byte that starts a new line.
pub const NEWLINE_BYTE: u8 = 0x0A;
/// Byte that advances to the next tab stop.
pub const TAB_BYTE: u8 = 0x09;

/// One screen cell: a code-page byte and its attribute.
#[derive(Debug, Clone, Copy, PartialEq, Eq, Structural)]
pub struct VgaChar {
    /// The byte shown.
    pub text_byte: u8,
    /// Its colours and blink bit.
    pub attr: VgaAttr,
}

/// The screen as the writer sees it.
pub struct Screen {
    /// Cells row by row, `VGA_BUFFER_CELLS` of them.
    pub cells: Seq<VgaChar>,
    /// Column of the next character on the last row.
    pub col: nat,
    /// Attribute of the characters written.
    pub attr: VgaAttr,
}

/// A blank cell in `attr`.
pub open spec fn blank(attr: VgaAttr) -> VgaChar {
    VgaChar { text_byte: VGA_WHITESPACE, attr }
}

/// Every row moves up one, the top row is lost, the last row is blank, and
/// writing starts over at its first column.
pub open spec fn new_line_spec(m: Screen) -> Screen {
    Screen {
        cells: Seq::new(
            VGA_BUFFER_CELLS as nat,
            |i: int|
                if i < LAST_ROW_START {
                    m.cells[i + VGA_BUFFER_WIDTH]
                } else {
                    blank(m.attr)
                },
        ),
        col: 0,
        attr: m.attr,
    }
}

/// Every row moves down one, the last row is lost, the top row stays as it
/// was, and writing goes on past the end of the last row.
pub open spec fn back_line_spec(m: Screen) -> Screen {
    Screen {
        cells: Seq::new(
            VGA_BUFFER_CELLS as nat,
            |i: int|
                if i < VGA_BUFFER_WIDTH {
                    m.cells[i]
                } else {
                    m.cells[i - VGA_BUFFER_WIDTH]
                },
        ),
        col: VGA_BUFFER_WIDTH as nat,
        attr: m.attr,
    }
}

/// Writes `byte` at the cursor, first starting a new line if the last row is
/// full.
pub open spec fn put_spec(m: Screen, byte: u8) -> Screen {
    let m1 = if m.col >= VGA_BUFFER_WIDTH {
        new_line_spec(m)
    } else {
        m
    };
    Screen {
        cells: m1.cells.update(LAST_ROW_START + m1.col, VgaChar { text_byte: byte, attr: m1.attr }),
        col: m1.col + 1,
        attr: m1.attr,
    }
}

/// Writes blanks until the cursor reaches a tab stop.
pub open spec fn tab_pad_spec(m: Screen) -> Screen
    decreases VGA_BUFFER_WIDTH - m.col,
{
    if m.col % (TAB_WIDTH as nat) == 0 || m.col >= VGA_BUFFER_WIDTH {
        m
    } else {
        tab_pad_spec(put_spec(m, VGA_WHITESPACE))
    }
}

/// Moves to the next tab stop, one blank at least.
pub open spec fn tab_spec(m: Screen) -> Screen {
    let m1 = if m.col % (TAB_WIDTH as nat) == 0 {
        put_spec(m, VGA_WHITESPACE)
    } else {
        m
    };
    tab_pad_spec(m1)
}

/// Writes one byte: a new line, a tab, or a character.
pub open spec fn write_char_spec(m: Screen, byte: u8) -> Screen {
    if byte == NEWLINE_BYTE {
        new_line_spec(m)
    } else if byte == TAB_BYTE {
        tab_spec(m)
    } else {
        put_spec(m, byte)
    }
}

/// Erases the character before the cursor, going back to the previous line
/// when the cursor is at the start of the last row.
pub open spec fn erase_spec(m: Screen) -> Screen {
    let m1 = if m.col == 0 {
        back_line_spec(m)
    } else {
        m
    };
    Screen {
        cells: m1.cells.update(LAST_ROW_START + m1.col - 1, blank(m1.attr)),
        col: (m1.col - 1) as nat,
        attr: m1.attr,
    }
}

/// One byte of a string: printable bytes, new lines and tabs are written,
/// a backspace erases, anything else shows as the unprintable mark.
pub open spec fn string_byte_spec(m: Screen, byte: u8) -> Screen {
    if (PRINTABLE_RANGE_START <= byte <= PRINTABLE_RANGE_END) || byte == NEWLINE_BYTE || byte
        == TAB_BYTE {
        write_char_spec(m, byte)
    } else if byte == BACKSPACE_BYTE {
        erase_spec(m)
    } else {
        write_char_spec(m, VGA_UNPRINTABLE)
    }
}

/// The screen after writing `bytes` in order.
pub open spec fn write_bytes_spec(m: Screen, bytes: Seq<u8>) -> Screen
    decreases bytes.len(),
{
    if bytes.len() == 0 {
        m
    } else {
        string_byte_spec(write_bytes_spec(m, bytes.drop_last()), bytes.last())
    }
}

/// The screen is complete and the cursor on the last row.
pub open spec fn screen_wf(m: Screen) -> bool {
    m.cells.len() == VGA_BUFFER_CELLS && m.col <= VGA_BUFFER_WIDTH
}

/// Writes characters to a screen buffer.
pub struct Writer {
    column_position: usize,
    attr: VgaAttr,
    cells: Vec<VgaChar>,
}

impl View for Writer {
    type V = Screen;

    closed spec fn view(&self) -> Screen {
        Screen { cells: self.cells@, col: self.column_position as nat, attr: self.attr }
    }
}

impl Writer {
    /// The screen is complete and the cursor on the last row.
    pub open spec fn wf(&self) -> bool {
        screen_wf(self@)
    }

    /// A writer on a blank screen, at the start of the last row.
    pub fn new(bg: VgaBgColour, fg: VgaFgColour, blink: bool) -> (r: Writer)
        ensures
            r.wf(),
            r@.col == 0,
            r@.attr == VgaAttr::new_spec(bg, fg, blink),
            r@.cells == Seq::new(VGA_BUFFER_CELLS as nat, |i: int| blank(r@.attr)),
    {
        let attr = VgaAttr::new(bg, fg, blink);
        let mut cells: Vec<VgaChar> = Vec::new();
        let mut i: usize = 0;
        while i < VGA_BUFFER_CELLS
            invariant
                i <= VGA_BUFFER_CELLS,
                cells@.len() == i,
                forall|j: int| 0 <= j < i ==> cells@[j] == blank(attr),
            decreases VGA_BUFFER_CELLS - i,
        {
            cells.push(VgaChar { text_byte: VGA_WHITESPACE, attr });
            i += 1;
        }
        let r = Writer { column_position: 0, attr, cells };
        assert(r@.cells =~= Seq::new(VGA_BUFFER_CELLS as nat, |i: int| blank(r@.attr)));
        r
    }

    /// The cell at `row`, `col`.
    pub fn cell(&self, row: usize, col: usize) -> (r: VgaChar)
        requires
            self.wf(),
            row < VGA_BUFFER_HEIGHT,
            col < VGA_BUFFER_WIDTH,
        ensures
            r == self@.cells[row * VGA_BUFFER_WIDTH + col],
    {
        self.cells[row * VGA_BUFFER_WIDTH + col]
    }

    /// Column of the next character on the last row.
    pub fn column_position(&self) -> (r: usize)
        ensures
            r == self@.col,
    {
        self.column_position
    }

    /// Attribute of the characters written.
    pub fn attr(&self) -> (r: VgaAttr)
        ensures
            r == self@.attr,
    {
        self.attr
    }

    /// Changes the attribute of the characters written from now on.
    pub fn set_attr(&mut self, attr: VgaAttr)
        ensures
            final(self)@ == (Screen { attr, ..old(self)@ }),
    {
        self.attr = attr;
    }

    /// Blanks every cell of `row` in the current attribute.
    pub fn clear_row(&mut self, row: usize)
        requires
            old(self).wf(),
            row < VGA_BUFFER_HEIGHT,
        ensures
            final(self)@.col == old(self)@.col,
            final(self)@.attr == old(self)@.attr,
            final(self)@.cells == Seq::new(
                VGA_BUFFER_CELLS as nat,
                |i: int|
                    if row * VGA_BUFFER_WIDTH <= i < row * VGA_BUFFER_WIDTH + VGA_BUFFER_WIDTH {
                        blank(old(self)@.attr)
                    } else {
                        old(self)@.cells[i]
                    },
            ),
    {
        let ghost before = self.cells@;
        let start = row * VGA_BUFFER_WIDTH;
        let ch = VgaChar { text_byte: VGA_WHITESPACE, attr: self.attr };
        let mut col: usize = 0;
        while col < VGA_BUFFER_WIDTH
            invariant
                col <= VGA_BUFFER_WIDTH,
                start == row * VGA_BUFFER_WIDTH,
                row < VGA_BUFFER_HEIGHT,
                ch == blank(self.attr),
                self.cells@.len() == VGA_BUFFER_CELLS,
                self.column_position == old(self).column_position,
                self.attr == old(self).attr,
                forall|i: int|
                    0 <= i < VGA_BUFFER_CELLS ==> #[trigger] self.cells@[i] == if start <= i < start
                        + col {
                        blank(self.attr)
                    } else {
                        before[i]
                    },
            decreases VGA_BUFFER_WIDTH - col,
        {
            self.cells.set(start + col, ch);
            col += 1;
        }
        assert(self.cells@ =~= Seq::new(
            VGA_BUFFER_CELLS as nat,
            |i: int|
                if row * VGA_BUFFER_WIDTH <= i < row * VGA_BUFFER_WIDTH + VGA_BUFFER_WIDTH {
                    blank(old(self)@.attr)
                } else {
                    old(self)@.cells[i]
                },
        ));
    }

    /// Scrolls every row up one and starts over on a blank last row.
    pub fn new_line(&mut self)
        requires
            old(self).wf(),
        ensures
            final(self).wf(),
            final(self)@ == new_line_spec(old(self)@),
    {
        let ghost before = self.cells@;
        let mut i: usize = 0;
        while i < LAST_ROW_START
            invariant
                i <= LAST_ROW_START,
                self.cells@.len() == VGA_BUFFER_CELLS,
                self.attr == old(self).attr,
                self.column_position == old(self).column_position,
                before == old(self)@.cells,
                forall|j: int|
                    0 <= j < VGA_BUFFER_CELLS ==> #[trigger] self.cells@[j] == if j < i {
                        before[j + VGA_BUFFER_WIDTH]
                    } else {
                        before[j]
                    },
            decreases LAST_ROW_START - i,
        {
            let c = self.cells[i + VGA_BUFFER_WIDTH];
            self.cells.set(i, c);
            i += 1;
        }
        self.clear_row(VGA_BUFFER_HEIGHT - 1);
        self.column_position = 0;
        assert(self@.cells =~= new_line_spec(old(self)@).cells);
    }

    /// Scrolls every row down one, keeping the top row, and puts the cursor
    /// past the end of the last row.
    pub fn back_line(&mut self)
        requires
            old(self).wf(),
        ensures
            final(self).wf(),
            final(self)@ == back_line_spec(old(self)@),
    {
        let ghost before = self.cells@;
        let mut i: usize = VGA_BUFFER_CELLS;
        while i > VGA_BUFFER_WIDTH
            invariant
                VGA_BUFFER_WIDTH <= i <= VGA_BUFFER_CELLS,
                self.cells@.len() == VGA_BUFFER_CELLS,
                self.attr == old(self).attr,
                before == old(self)@.cells,
                forall|j: int|
                    0 <= j < VGA_BUFFER_CELLS ==> #[trigger] self.cells@[j] == if j >= i {
                        before[j - VGA_BUFFER_WIDTH]
                    } else {
                        before[j]
                    },
            decreases i,
        {
            i -= 1;
            let c = self.cells[i - VGA_BUFFER_WIDTH];
            self.cells.set(i, c);
        }
        self.column_position = VGA_BUFFER_WIDTH;
        assert(self@.cells =~= back_line_spec(old(self)@).cells);
    }

    /// Writes one character byte at the cursor, first starting a new line if
    /// the last row is full.
    fn put_byte(&mut self, byte: u8)
        requires
            old(self).wf(),
        ensures
            final(self).wf(),
            final(self)@ == put_spec(old(self)@, byte),
    {
        if self.column_position >= VGA_BUFFER_WIDTH {
            self.new_line();
        }
        let ch = VgaChar { text_byte: byte, attr: self.attr };
        self.cells.set(LAST_ROW_START + self.column_position, ch);
        self.column_position += 1;
    }

    /// Moves to the next tab stop, writing one blank at least.
    pub fn write_tab(&mut self)
        requires
            old(self).wf(),
        ensures
            final(self).wf(),
            final(self)@ == tab_spec(old(self)@),
    {
        if self.column_position % TAB_WIDTH == 0 {
            self.put_byte(VGA_WHITESPACE);
        }
        let ghost target = tab_spec(old(self)@);
        while self.column_position % TAB_WIDTH != 0
            invariant
                self.wf(),
                tab_pad_spec(self@) == target,
            decreases VGA_BUFFER_WIDTH - self.column_position,
        {
            self.put_byte(VGA_WHITESPACE);
        }
    }

    /// Writes one byte: a new line, a tab, or a character.
    pub fn write_char(&mut self, byte: u8)
        requires
            old(self).wf(),
        ensures
            final(self).wf(),
            final(self)@ == write_char_spec(old(self)@, byte),
    {
        if byte == NEWLINE_BYTE {
            self.new_line();
        } else if byte == TAB_BYTE {
            self.write_tab();
        } else {
            self.put_byte(byte);
        }
    }

    /// Erases the character before the cursor.
    pub fn erase_char(&mut self)
        requires
            old(self).wf(),
        ensures
            final(self).wf(),
            final(self)@ == erase_spec(old(self)@),
    {
        if self.column_position == 0 {
            self.back_line();
        }
        let ch = VgaChar { text_byte: VGA_WHITESPACE, attr: self.attr };
        self.cells.set(LAST_ROW_START + self.column_position - 1, ch);
        self.column_position -= 1;
    }

    /// Writes the bytes of a string in order.
    pub fn write_bytes(&mut self, bytes: &[u8])
        requires
            old(self).wf(),
        ensures
            final(self).wf(),
            final(self)@ == write_bytes_spec(old(self)@, bytes@),
    {
        let mut i: usize = 0;
        while i < bytes.len()
            invariant
                i <= bytes@.len(),
                self.wf(),
                self@ == write_bytes_spec(old(self)@, bytes@.subrange(0, i as int)),
            decreases bytes@.len() - i,
        {
            let byte = bytes[i];
            proof {
                assert(bytes@.subrange(0, i + 1).drop_last() =~= bytes@.subrange(0, i as int));
            }
            if (PRINTABLE_RANGE_START <= byte && byte <= PRINTABLE_RANGE_END) || byte == NEWLINE_BYTE
                || byte == TAB_BYTE {
                self.write_char(byte);
            } else if byte == BACKSPACE_BYTE {
                self.erase_char();
            } else {
                self.write_char(VGA_UNPRINTABLE);
            }
            i += 1;
        }
        assert(bytes@.subrange(0, bytes@.len() as int) =~= bytes@);
    }

    /// Writes a string: printable bytes, new lines and tabs as they are,
    /// backspaces erase, anything else as the unprintable mark.
    pub fn write_string(&mut self, s: &str)
        requires
            old(self).wf(),
        ensures
            final(self).wf(),
            final(self)@ == write_bytes_spec(old(self)@, s.spec_bytes()),
    {
        self.write_bytes(s.as_bytes());
    }
}

} // verus!
