//! The display grid and the writer that drives it.
//!
//! The grid is a fixed 25x80 surface of two-byte cells backed by volatile
//! memory: the device observes every cell, so reads and writes must go through
//! `volatile::Volatile` and may never be reordered or elided.  The writer owns
//! the grid, tracks the cursor, and turns a byte stream into cell writes with
//! line wrap and scroll-on-overflow.

use vstd::prelude::*;
use vstd::string::StringSliceAdditionalSpecFns;

use crate::color::ColorCode;

verus! {

/// Number of rows of the grid, fixed by the device.
pub const BUFFER_HEIGHT: usize = 25;

/// Number of columns of the grid, fixed by the device.
pub const BUFFER_WIDTH: usize = 80;

/// The newline control byte: advances the cursor to a fresh line.
pub const NEWLINE_BYTE: u8 = 10;

/// The null control byte: rendered as a blank, never as a device glyph.
pub const NULL_BYTE: u8 = 0;

/// The blank character that cleared cells hold.
pub const BLANK_BYTE: u8 = 32;

/// One cell of the grid: an 8-bit character code followed by its attribute
/// byte, two bytes in all, laid out as the device expects.
#[derive(Clone, Copy, Debug, PartialEq, Eq, Structural)]
pub struct ScreenChar {
    pub ascii_character: u8,
    pub color_code: ColorCode,
}

/// The value a volatile cell holds.
pub uninterp spec fn cell_value(cell: volatile::Volatile<ScreenChar>) -> ScreenChar;

#[verifier::external_type_specification]
#[verifier::external_body]
#[verifier::reject_recursive_types(T)]
pub struct ExVolatile<T: Copy>(volatile::Volatile<T>);

/// Relies on volatile::Volatile::new: wraps the given value for volatile
/// access; never panics.
#[verifier::external_body]
fn cell_new(value: ScreenChar) -> (cell: volatile::Volatile<ScreenChar>)
    ensures
        cell_value(cell) == value,
{
    volatile::Volatile::new(value)
}

/// Relies on volatile::Volatile::read: a volatile read that returns a copy of
/// the wrapped value and is never optimized away; never panics.
#[verifier::external_body]
fn cell_read(cell: &volatile::Volatile<ScreenChar>) -> (value: ScreenChar)
    ensures
        value == cell_value(*cell),
    no_unwind
{
    cell.read()
}

/// Relies on volatile::Volatile::write: a volatile write of the wrapped value
/// that is never optimized away; never panics.
#[verifier::external_body]
fn cell_write(cell: &mut volatile::Volatile<ScreenChar>, value: ScreenChar)
    ensures
        cell_value(*final(cell)) == value,
    no_unwind
{
    cell.write(value)
}

/// A grid of the given dimensions: `BUFFER_HEIGHT` rows of `BUFFER_WIDTH`
/// cells each.
pub open spec fn grid_wf(grid: Seq<Seq<ScreenChar>>) -> bool {
    &&& grid.len() == BUFFER_HEIGHT
    &&& forall|r: int| 0 <= r < grid.len() ==> (#[trigger] grid[r]).len() == BUFFER_WIDTH
}

/// A grid whose every cell holds `fill`.
pub open spec fn filled_grid(fill: ScreenChar) -> Seq<Seq<ScreenChar>> {
    Seq::new(BUFFER_HEIGHT as nat, |r: int| Seq::new(BUFFER_WIDTH as nat, |c: int| fill))
}

/// The fixed-size display surface: a row-major arrangement of volatile cells.
///
/// It is pure storage with indexed access; asking for a cell outside the
/// static 25x80 geometry is a programming error, not a recoverable condition.
pub struct Buffer {
    cells: Vec<volatile::Volatile<ScreenChar>>,
}

impl View for Buffer {
    type V = Seq<Seq<ScreenChar>>;

    closed spec fn view(&self) -> Seq<Seq<ScreenChar>> {
        Seq::new(
            BUFFER_HEIGHT as nat,
            |r: int|
                Seq::new(
                    BUFFER_WIDTH as nat,
                    |c: int| cell_value(self.cells@[r * BUFFER_WIDTH + c]),
                ),
        )
    }
}

impl Buffer {
    #[verifier::type_invariant]
    spec fn wf(self) -> bool {
        self.cells@.len() == BUFFER_HEIGHT * BUFFER_WIDTH
    }

    /// A fresh grid whose every cell holds `fill`.
    pub fn new(fill: ScreenChar) -> (buffer: Buffer)
        ensures
            buffer@ == filled_grid(fill),
    {
        let mut cells: Vec<volatile::Volatile<ScreenChar>> = Vec::new();
        let mut i: usize = 0;
        while i < BUFFER_HEIGHT * BUFFER_WIDTH
            invariant
                i <= BUFFER_HEIGHT * BUFFER_WIDTH,
                cells@.len() == i,
                forall|j: int| 0 <= j < i ==> cell_value(#[trigger] cells@[j]) == fill,
            decreases BUFFER_HEIGHT * BUFFER_WIDTH - i,
        {
            cells.push(cell_new(fill));
            i = i + 1;
        }
        let buffer = Buffer { cells };
        proof {
            assert(buffer@ =~~= filled_grid(fill));
        }
        buffer
    }

    /// Reads the cell at `(row, col)` with a single volatile access.
    pub fn get(&self, row: usize, col: usize) -> (value: ScreenChar)
        requires
            row < BUFFER_HEIGHT,
            col < BUFFER_WIDTH,
        ensures
            value == self@[row as int][col as int],
        no_unwind
    {
        proof {
            use_type_invariant(self);
        }
        let index: usize = row * BUFFER_WIDTH + col;
        cell_read(&self.cells[index])
    }

    /// Writes `value` into the cell at `(row, col)` with a single volatile
    /// access; every other cell keeps its contents.
    pub fn set(&mut self, row: usize, col: usize, value: ScreenChar)
        requires
            row < BUFFER_HEIGHT,
            col < BUFFER_WIDTH,
        ensures
            final(self)@ == old(self)@.update(
                row as int,
                old(self)@[row as int].update(col as int, value),
            ),
        no_unwind
    {
        proof {
            use_type_invariant(&*self);
        }
        let index: usize = row * BUFFER_WIDTH + col;
        let cell = &mut self.cells[index];
        cell_write(cell, value);
        proof {
            assert(self@ =~~= old(self)@.update(
                row as int,
                old(self)@[row as int].update(col as int, value),
            ));
        }
    }
}

/// The blank cell that clearing paints, in the given attribute.
pub open spec fn blank_char(color: ColorCode) -> ScreenChar {
    ScreenChar { ascii_character: BLANK_BYTE, color_code: color }
}

/// A whole row of blank cells in the given attribute.
pub open spec fn blank_row(color: ColorCode) -> Seq<ScreenChar> {
    Seq::new(BUFFER_WIDTH as nat, |c: int| blank_char(color))
}

/// A whole grid of blank cells in the given attribute.
pub open spec fn blank_grid(color: ColorCode) -> Seq<Seq<ScreenChar>> {
    Seq::new(BUFFER_HEIGHT as nat, |r: int| blank_row(color))
}

/// The grid after one scroll: every row moves up by one, row 0's prior
/// contents are discarded, and the last row is blanked in the given attribute.
pub open spec fn scrolled(grid: Seq<Seq<ScreenChar>>, color: ColorCode) -> Seq<Seq<ScreenChar>> {
    Seq::new(
        BUFFER_HEIGHT as nat,
        |r: int|
            if r < BUFFER_HEIGHT - 1 {
                grid[r + 1]
            } else {
                blank_row(color)
            },
    )
}

/// Grid and row after a new-line advance from `row`: one row down if a row is
/// left, else a scroll that pins the cursor to the last row.  The column
/// becomes 0 either way.
pub open spec fn new_line_state(
    grid: Seq<Seq<ScreenChar>>,
    row: int,
    color: ColorCode,
) -> (Seq<Seq<ScreenChar>>, int) {
    if row + 1 < BUFFER_HEIGHT {
        (grid, row + 1)
    } else {
        (scrolled(grid, color), BUFFER_HEIGHT - 1)
    }
}

/// The cell a byte renders as: the null control byte renders as a blank,
/// every other byte as itself, in the given attribute.
pub open spec fn printed_char(byte: u8, color: ColorCode) -> ScreenChar {
    if byte == NULL_BYTE {
        blank_char(color)
    } else {
        ScreenChar { ascii_character: byte, color_code: color }
    }
}

/// Grid, row and column after one byte is written at `(row, col)`:
/// a newline advances the cursor, any other byte is placed at the cursor --
/// after a new-line advance first when the line is already full.
pub open spec fn write_byte_state(
    grid: Seq<Seq<ScreenChar>>,
    row: int,
    col: int,
    color: ColorCode,
    byte: u8,
) -> (Seq<Seq<ScreenChar>>, int, int) {
    if byte == NEWLINE_BYTE {
        let (grid2, row2) = new_line_state(grid, row, color);
        (grid2, row2, 0)
    } else {
        let (grid1, row1, col1) = if col >= BUFFER_WIDTH {
            let (grid2, row2) = new_line_state(grid, row, color);
            (grid2, row2, 0int)
        } else {
            (grid, row, col)
        };
        (
            grid1.update(row1, grid1[row1].update(col1, printed_char(byte, color))),
            row1,
            col1 + 1,
        )
    }
}

/// Grid, row and column after the bytes of `bytes` are written in order.
pub open spec fn write_seq_state(
    grid: Seq<Seq<ScreenChar>>,
    row: int,
    col: int,
    color: ColorCode,
    bytes: Seq<u8>,
) -> (Seq<Seq<ScreenChar>>, int, int)
    decreases bytes.len(),
{
    if bytes.len() == 0 {
        (grid, row, col)
    } else {
        let (grid1, row1, col1) = write_seq_state(grid, row, col, color, bytes.drop_last());
        write_byte_state(grid1, row1, col1, color, bytes.last())
    }
}

/// The row `dst` with its first `col` cells replaced by those of `src`.
spec fn copied_prefix(src: Seq<ScreenChar>, dst: Seq<ScreenChar>, col: int) -> Seq<ScreenChar> {
    Seq::new(BUFFER_WIDTH as nat, |c: int| if c < col { src[c] } else { dst[c] })
}

/// The row `line` with its first `col` cells blanked in the given attribute.
spec fn cleared_prefix(line: Seq<ScreenChar>, col: int, color: ColorCode) -> Seq<ScreenChar> {
    Seq::new(BUFFER_WIDTH as nat, |c: int| if c < col { blank_char(color) } else { line[c] })
}

/// Law: within bounds, writing a cell and then reading it back, uncontended,
/// returns the same character and attribute, and the grid keeps its geometry.
pub proof fn lemma_cell_write_read(
    grid: Seq<Seq<ScreenChar>>,
    row: int,
    col: int,
    value: ScreenChar,
)
    requires
        grid_wf(grid),
        0 <= row < BUFFER_HEIGHT,
        0 <= col < BUFFER_WIDTH,
    ensures
        grid.update(row, grid[row].update(col, value))[row][col] == value,
        grid_wf(grid.update(row, grid[row].update(col, value))),
{
}

/// Law: a byte that is neither the newline control byte nor forced to wrap
/// lands at the cursor: reading `(row, col)` back afterwards returns exactly
/// the rendered cell, every other cell is untouched, and the cursor moves one
/// column to the right on the same row.
pub proof fn lemma_write_in_line(
    grid: Seq<Seq<ScreenChar>>,
    row: int,
    col: int,
    color: ColorCode,
    byte: u8,
)
    requires
        grid_wf(grid),
        0 <= row < BUFFER_HEIGHT,
        0 <= col < BUFFER_WIDTH,
        byte != NEWLINE_BYTE,
    ensures
        ({
            let (grid2, row2, col2) = write_byte_state(grid, row, col, color, byte);
            &&& grid2[row][col] == printed_char(byte, color)
            &&& forall|r: int, c: int|
                0 <= r < BUFFER_HEIGHT && 0 <= c < BUFFER_WIDTH && (r != row || c != col)
                    ==> #[trigger] grid2[r][c] == grid[r][c]
            &&& row2 == row
            &&& col2 == col + 1
            &&& grid_wf(grid2)
        }),
{
}

/// Law: a full line is never left standing as a written-to state.  A byte
/// that is not the newline control byte, arriving with the column at
/// `BUFFER_WIDTH`, triggers exactly one new-line advance and is then placed
/// at column 0 of the line the advance chose.
pub proof fn lemma_wrap_before_write(
    grid: Seq<Seq<ScreenChar>>,
    row: int,
    color: ColorCode,
    byte: u8,
)
    requires
        byte != NEWLINE_BYTE,
    ensures
        ({
            let (ngrid, nrow) = new_line_state(grid, row, color);
            write_byte_state(grid, row, BUFFER_WIDTH as int, color, byte) == (
                ngrid.update(nrow, ngrid[nrow].update(0, printed_char(byte, color))),
                nrow,
                1int,
            )
        }),
{
}

/// Law: a newline written anywhere above the last row moves the cursor to
/// `(row + 1, 0)` and leaves every cell of the grid as it was -- no scroll.
pub proof fn lemma_newline_no_scroll(
    grid: Seq<Seq<ScreenChar>>,
    row: int,
    col: int,
    color: ColorCode,
)
    requires
        0 <= row < BUFFER_HEIGHT - 1,
    ensures
        write_byte_state(grid, row, col, color, NEWLINE_BYTE) == (grid, row + 1, 0int),
{
}

/// Law: a newline written on the last row scrolls: row 0's prior contents are
/// gone, every other row holds what stood one row below it, the last row is
/// all blanks in the current attribute, and the cursor lands at
/// `(BUFFER_HEIGHT - 1, 0)`.
pub proof fn lemma_newline_scrolls(grid: Seq<Seq<ScreenChar>>, col: int, color: ColorCode)
    requires
        grid_wf(grid),
    ensures
        ({
            let (grid2, row2, col2) = write_byte_state(
                grid,
                BUFFER_HEIGHT - 1,
                col,
                color,
                NEWLINE_BYTE,
            );
            &&& forall|r: int|
                0 <= r < BUFFER_HEIGHT - 1 ==> #[trigger] grid2[r] == grid[r + 1]
            &&& grid2[BUFFER_HEIGHT - 1] == blank_row(color)
            &&& row2 == BUFFER_HEIGHT - 1
            &&& col2 == 0
            &&& grid_wf(grid2)
        }),
{
}

/// Law: the null control byte renders exactly as a blank character written at
/// the same position would.
pub proof fn lemma_null_renders_as_blank(
    grid: Seq<Seq<ScreenChar>>,
    row: int,
    col: int,
    color: ColorCode,
)
    ensures
        write_byte_state(grid, row, col, color, NULL_BYTE) == write_byte_state(
            grid,
            row,
            col,
            color,
            BLANK_BYTE,
        ),
{
}

/// The stateful driver of the grid: it owns the display surface, keeps the
/// cursor and the current attribute, and converts a byte stream into cell
/// writes with line wrap and scroll-on-overflow.
///
/// Between operations the cursor always satisfies `row < BUFFER_HEIGHT` and
/// `column <= BUFFER_WIDTH`; no operation can fail.
pub struct Writer {
    column_position: usize,
    row_position: usize,
    color_code: ColorCode,
    buffer: Buffer,
}

impl Writer {
    #[verifier::type_invariant]
    spec fn wf(self) -> bool {
        &&& self.row_position < BUFFER_HEIGHT
        &&& self.column_position <= BUFFER_WIDTH
    }

    /// The grid as the device sees it.
    pub closed spec fn grid(self) -> Seq<Seq<ScreenChar>> {
        self.buffer@
    }

    /// The cursor row.
    pub closed spec fn row(self) -> int {
        self.row_position as int
    }

    /// The cursor column.
    pub closed spec fn col(self) -> int {
        self.column_position as int
    }

    /// The current color attribute.
    pub closed spec fn color(self) -> ColorCode {
        self.color_code
    }

    /// A writer that takes sole ownership of `buffer`, with the cursor at the
    /// top left and the given attribute for everything it writes.
    pub fn new(buffer: Buffer, color_code: ColorCode) -> (writer: Writer)
        ensures
            writer.grid() == buffer@,
            writer.row() == 0,
            writer.col() == 0,
            writer.color() == color_code,
    {
        Writer { column_position: 0, row_position: 0, color_code, buffer }
    }

    /// The cursor as a `(row, column)` pair; between operations it always
    /// satisfies `row < BUFFER_HEIGHT` and `column <= BUFFER_WIDTH`.
    pub fn position(&self) -> (position: (usize, usize))
        ensures
            position.0 == self.row(),
            position.1 == self.col(),
            position.0 < BUFFER_HEIGHT,
            position.1 <= BUFFER_WIDTH,
    {
        proof {
            use_type_invariant(self);
        }
        (self.row_position, self.column_position)
    }

    /// Reads the cell at `(row, col)` back from the grid.
    pub fn read_cell(&self, row: usize, col: usize) -> (value: ScreenChar)
        requires
            row < BUFFER_HEIGHT,
            col < BUFFER_WIDTH,
        ensures
            value == self.grid()[row as int][col as int],
    {
        self.buffer.get(row, col)
    }

    /// Writes one byte at the cursor: a newline advances to a fresh line, a
    /// null byte renders as a blank, and any other byte is placed at the
    /// cursor -- after a new-line advance first when the line is already full.
    pub fn write_byte(&mut self, byte: u8)
        ensures
            ({
                let (grid2, row2, col2) = write_byte_state(
                    old(self).grid(),
                    old(self).row(),
                    old(self).col(),
                    old(self).color(),
                    byte,
                );
                &&& final(self).grid() == grid2
                &&& final(self).row() == row2
                &&& final(self).col() == col2
                &&& final(self).color() == old(self).color()
            }),
        decreases (if byte == NULL_BYTE {
            1int
        } else {
            0int
        }),
    {
        proof {
            use_type_invariant(&*self);
        }
        if byte == NEWLINE_BYTE {
            self.new_line();
        } else if byte == NULL_BYTE {
            self.write_byte(BLANK_BYTE);
        } else {
            if self.column_position >= BUFFER_WIDTH {
                self.new_line();
            }
            let row = self.row_position;
            let col = self.column_position;
            let color_code = self.color_code;
            self.buffer.set(row, col, ScreenChar { ascii_character: byte, color_code });
            self.column_position = col + 1;
        }
    }

    /// Writes every byte of `bytes`, in order, through `write_byte`.
    #[verifier::loop_isolation(false)]
    pub fn write_bytes(&mut self, bytes: &[u8])
        ensures
            ({
                let (grid2, row2, col2) = write_seq_state(
                    old(self).grid(),
                    old(self).row(),
                    old(self).col(),
                    old(self).color(),
                    bytes@,
                );
                &&& final(self).grid() == grid2
                &&& final(self).row() == row2
                &&& final(self).col() == col2
                &&& final(self).color() == old(self).color()
            }),
    {
        let mut i: usize = 0;
        while i < bytes.len()
            invariant
                i <= bytes@.len(),
                self.color() == old(self).color(),
                ({
                    let (grid1, row1, col1) = write_seq_state(
                        old(self).grid(),
                        old(self).row(),
                        old(self).col(),
                        old(self).color(),
                        bytes@.take(i as int),
                    );
                    &&& self.grid() == grid1
                    &&& self.row() == row1
                    &&& self.col() == col1
                }),
            decreases bytes@.len() - i,
        {
            self.write_byte(bytes[i]);
            proof {
                assert(bytes@.take(i + 1).drop_last() =~= bytes@.take(i as int));
                assert(bytes@.take(i + 1).last() == bytes@[i as int]);
            }
            i = i + 1;
        }
        proof {
            assert(bytes@.take(bytes@.len() as int) =~= bytes@);
        }
    }

    /// Writes every byte of `s`, in order, through `write_byte`.
    pub fn write_str(&mut self, s: &str)
        ensures
            ({
                let (grid2, row2, col2) = write_seq_state(
                    old(self).grid(),
                    old(self).row(),
                    old(self).col(),
                    old(self).color(),
                    s.spec_bytes(),
                );
                &&& final(self).grid() == grid2
                &&& final(self).row() == row2
                &&& final(self).col() == col2
                &&& final(self).color() == old(self).color()
            }),
    {
        self.write_bytes(s.as_bytes());
    }

    /// Flushes everything visible off the grid by emitting newline writes and
    /// letting the scroll mechanism blank row after row, leaving every cell
    /// blank in the current attribute and the cursor at the last row, column
    /// 0.
    #[verifier::loop_isolation(false)]
    pub fn clear_screen(&mut self)
        ensures
            final(self).grid() == blank_grid(old(self).color()),
            final(self).row() == BUFFER_HEIGHT - 1,
            final(self).col() == 0,
            final(self).color() == old(self).color(),
    {
        proof {
            use_type_invariant(&*self);
        }
        while self.row_position < BUFFER_HEIGHT - 1
            invariant
                self.row() <= BUFFER_HEIGHT - 1,
                self.color() == old(self).color(),
            decreases BUFFER_HEIGHT - 1 - self.row(),
        {
            self.new_line();
        }
        let mut i: usize = 0;
        while i < BUFFER_HEIGHT
            invariant
                i <= BUFFER_HEIGHT,
                self.row() == BUFFER_HEIGHT - 1,
                i > 0 ==> self.col() == 0,
                self.color() == old(self).color(),
                forall|r: int|
                    BUFFER_HEIGHT - i <= r < BUFFER_HEIGHT ==> #[trigger] self.grid()[r]
                        == blank_row(old(self).color()),
            decreases BUFFER_HEIGHT - i,
        {
            self.new_line();
            i = i + 1;
        }
        proof {
            assert(self.grid() =~= blank_grid(old(self).color()));
        }
    }

    /// Advances to a fresh line: one row down and back to column 0, scrolling
    /// when the grid is exhausted.
    fn new_line(&mut self)
        ensures
            ({
                let (grid2, row2) = new_line_state(
                    old(self).grid(),
                    old(self).row(),
                    old(self).color(),
                );
                &&& final(self).grid() == grid2
                &&& final(self).row() == row2
                &&& final(self).col() == 0
                &&& final(self).color() == old(self).color()
            }),
    {
        proof {
            use_type_invariant(&*self);
        }
        self.column_position = 0;
        if self.row_position + 1 >= BUFFER_HEIGHT {
            self.scroll_screen();
        } else {
            self.row_position = self.row_position + 1;
        }
    }

    /// Shifts the whole grid up by one row, discarding row 0, blanks the last
    /// row in the current attribute, and pins the cursor to the last row at
    /// column 0.
    #[verifier::loop_isolation(false)]
    fn scroll_screen(&mut self)
        ensures
            final(self).grid() == scrolled(old(self).grid(), old(self).color()),
            final(self).row() == BUFFER_HEIGHT - 1,
            final(self).col() == 0,
            final(self).color() == old(self).color(),
    {
        proof {
            use_type_invariant(&*self);
        }
        let ghost grid0 = self.grid();
        let mut row: usize = 1;
        while row < BUFFER_HEIGHT
            invariant
                1 <= row <= BUFFER_HEIGHT,
                self.color() == old(self).color(),
                self.row() == old(self).row(),
                self.col() == old(self).col(),
                forall|r: int| 0 <= r < row - 1 ==> #[trigger] self.grid()[r] == grid0[r + 1],
                forall|r: int| row - 1 <= r < BUFFER_HEIGHT ==> #[trigger] self.grid()[r] == grid0[r],
            decreases BUFFER_HEIGHT - row,
        {
            let ghost grid_at_row = self.grid();
            proof {
                assert(copied_prefix(grid_at_row[row as int], grid_at_row[row - 1], 0) =~= grid_at_row[row - 1]);
                assert(self.grid() =~~= grid_at_row.update(
                    row - 1,
                    copied_prefix(grid_at_row[row as int], grid_at_row[row - 1], 0),
                ));
            }
            let mut col: usize = 0;
            while col < BUFFER_WIDTH
                invariant
                    col <= BUFFER_WIDTH,
                    self.color() == old(self).color(),
                    self.row() == old(self).row(),
                    self.col() == old(self).col(),
                    self.grid() == grid_at_row.update(
                        row - 1,
                        copied_prefix(grid_at_row[row as int], grid_at_row[row - 1], col as int),
                    ),
                decreases BUFFER_WIDTH - col,
            {
                let character = self.buffer.get(row, col);
                self.buffer.set(row - 1, col, character);
                proof {
                    assert(copied_prefix(grid_at_row[row as int], grid_at_row[row - 1], col as int)
                        .update(col as int, character) =~= copied_prefix(
                        grid_at_row[row as int],
                        grid_at_row[row - 1],
                        col as int + 1,
                    ));
                    assert(self.grid() =~~= grid_at_row.update(
                        row - 1,
                        copied_prefix(grid_at_row[row as int], grid_at_row[row - 1], col as int + 1),
                    ));
                }
                col = col + 1;
            }
            proof {
                assert(copied_prefix(
                    grid_at_row[row as int],
                    grid_at_row[row - 1],
                    BUFFER_WIDTH as int,
                ) =~= grid_at_row[row as int]);
            }
            row = row + 1;
        }
        self.clear_row(BUFFER_HEIGHT - 1);
        self.column_position = 0;
        self.row_position = BUFFER_HEIGHT - 1;
        proof {
            assert(self.grid() =~= scrolled(grid0, old(self).color()));
        }
    }

    /// Blanks every cell of `row` in the current attribute.
    #[verifier::loop_isolation(false)]
    fn clear_row(&mut self, row: usize)
        requires
            row < BUFFER_HEIGHT,
        ensures
            final(self).grid() == old(self).grid().update(
                row as int,
                blank_row(old(self).color()),
            ),
            final(self).row() == old(self).row(),
            final(self).col() == old(self).col(),
            final(self).color() == old(self).color(),
    {
        proof {
            use_type_invariant(&*self);
        }
        let ghost grid0 = self.grid();
        let ghost color0 = self.color();
        let blank = ScreenChar { ascii_character: BLANK_BYTE, color_code: self.color_code };
        proof {
            assert(cleared_prefix(grid0[row as int], 0, color0) =~= grid0[row as int]);
            assert(self.grid() =~~= grid0.update(
                row as int,
                cleared_prefix(grid0[row as int], 0, color0),
            ));
        }
        let mut col: usize = 0;
        while col < BUFFER_WIDTH
            invariant
                col <= BUFFER_WIDTH,
                self.color() == color0,
                self.row() == old(self).row(),
                self.col() == old(self).col(),
                self.grid() == grid0.update(
                    row as int,
                    cleared_prefix(grid0[row as int], col as int, color0),
                ),
            decreases BUFFER_WIDTH - col,
        {
            self.buffer.set(row, col, blank);
            proof {
                assert(cleared_prefix(grid0[row as int], col as int, color0).update(
                    col as int,
                    blank_char(color0),
                ) =~= cleared_prefix(grid0[row as int], col as int + 1, color0));
                assert(self.grid() =~~= grid0.update(
                    row as int,
                    cleared_prefix(grid0[row as int], col as int + 1, color0),
                ));
            }
            col = col + 1;
        }
        proof {
            assert(cleared_prefix(grid0[row as int], BUFFER_WIDTH as int, color0) =~= blank_row(
                color0,
            ));
        }
    }
}

} // verus!
