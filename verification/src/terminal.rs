//! The text of a terminal buffer, for tests that look at what was rendered.

use tui::buffer::{Buffer, Cell};
use tui::layout::Rect;
use vstd::prelude::*;
use vstd::string::StringExecFns;

verus! {

/// `tui::layout::Rect`, with its four public fields.
#[verifier::external_type_specification]
pub struct ExRect(tui::layout::Rect);

/// `tui::style::Color`, carried as an opaque value.
#[verifier::external_type_specification]
#[verifier::external_body]
pub struct ExColor(tui::style::Color);

/// `tui::style::Modifier`, carried as an opaque value.
#[verifier::external_type_specification]
#[verifier::external_body]
pub struct ExModifier(tui::style::Modifier);

/// `tui::buffer::Cell`, with its public fields.
#[verifier::external_type_specification]
pub struct ExCell(tui::buffer::Cell);

/// `tui::buffer::Buffer`, with its public fields: the area it covers and
/// its cells, row by row.
#[verifier::external_type_specification]
pub struct ExBuffer(tui::buffer::Buffer);

/// The position in `content` of the cell at global coordinates `(x, y)`.
pub open spec fn cell_index(area: Rect, x: int, y: int) -> int {
    (y - area.y) * area.width + (x - area.x)
}

/// `Buffer::area` returns the field of that name.
pub assume_specification[ tui::buffer::Buffer::area ](buffer: &Buffer) -> (area: &Rect)
    ensures
        *area == buffer.area,
;

/// `Buffer::get` returns the cell at global coordinates `(x, y)`. It
/// computes the cell's position in 16 bits and then indexes `content`, so
/// the coordinates have to lie in the buffer's area, the position has to fit
/// in 16 bits, and `content` has to reach that far.
pub assume_specification[ tui::buffer::Buffer::get ](buffer: &Buffer, x: u16, y: u16) -> (cell: &Cell)
    requires
        buffer.area.x <= x < buffer.area.x + buffer.area.width,
        buffer.area.y <= y < buffer.area.y + buffer.area.height,
        x < u16::MAX,
        y < u16::MAX,
        cell_index(buffer.area, x as int, y as int) <= u16::MAX,
        cell_index(buffer.area, x as int, y as int) < buffer.content@.len(),
    ensures
        *cell == buffer.content@[cell_index(buffer.area, x as int, y as int)],
;

/// Whether a buffer is a screen: it starts at the origin and holds one
/// cell for each position of its area, at most `u16::MAX` of them.
pub open spec fn is_screen(buffer: Buffer) -> bool {
    &&& buffer.area.x == 0
    &&& buffer.area.y == 0
    &&& buffer.area.width * buffer.area.height <= u16::MAX
    &&& buffer.content@.len() == buffer.area.width * buffer.area.height
}

/// Tests whether a buffer is a screen.
pub fn is_renderable(buffer: &Buffer) -> (b: bool)
    ensures
        b == is_screen(*buffer),
{
    let width = buffer.area().width;
    let height = buffer.area().height;
    assert(width * height <= 0xffff * 0xffff) by (nonlinear_arith)
        requires
            width <= 0xffff,
            height <= 0xffff,
    ;
    let cells: u32 = width as u32 * height as u32;
    buffer.area().x == 0 && buffer.area().y == 0 && cells <= 65535 && buffer.content.len()
        == cells as usize
}

/// The symbols of the first `cols` cells of row `row`, one after another.
pub open spec fn row_text(buffer: Buffer, row: int, cols: int) -> Seq<char>
    decreases cols,
{
    if cols <= 0 {
        Seq::empty()
    } else {
        row_text(buffer, row, cols - 1) + buffer.content@[row * buffer.area.width + cols
            - 1].symbol@
    }
}

/// The text of the first `rows` rows: each row's symbols, then a newline.
pub open spec fn screen_text(buffer: Buffer, rows: int) -> Seq<char>
    decreases rows,
{
    if rows <= 0 {
        Seq::empty()
    } else {
        screen_text(buffer, rows - 1) + row_text(buffer, rows - 1, buffer.area.width as int)
            + seq!['\n']
    }
}

/// A cell of a screen lies within its content.
proof fn lemma_cell_in_screen(width: int, height: int, col: int, row: int)
    requires
        0 <= col < width,
        0 <= row < height,
    ensures
        0 <= row * width + col < width * height,
{
    assert(row * width + col < width * height) by (nonlinear_arith)
        requires
            0 <= col < width,
            0 <= row < height,
    ;
    assert(0 <= row * width) by (nonlinear_arith)
        requires
            0 <= row,
            0 <= width,
    ;
}

/// The text of a screen: the symbols of its cells, row by row, with a
/// newline after each row.
pub fn terminal_view(buffer: &Buffer) -> (text: String)
    requires
        is_screen(*buffer),
    ensures
        text@ == screen_text(*buffer, buffer.area.height as int),
{
    let width = buffer.area().width;
    let height = buffer.area().height;
    let mut text = String::new();
    let mut row: u16 = 0;
    while row < height
        invariant
            is_screen(*buffer),
            width == buffer.area.width,
            height == buffer.area.height,
            row <= height,
            text@ == screen_text(*buffer, row as int),
        decreases height - row,
    {
        let mut col: u16 = 0;
        while col < width
            invariant
                is_screen(*buffer),
                width == buffer.area.width,
                height == buffer.area.height,
                row < height,
                col <= width,
                text@ == screen_text(*buffer, row as int) + row_text(*buffer, row as int, col as int),
            decreases width - col,
        {
            proof {
                lemma_cell_in_screen(width as int, height as int, col as int, row as int);
            }
            let cell = buffer.get(col, row);
            text.append(cell.symbol.as_str());
            col += 1;
            assert(text@ == screen_text(*buffer, row as int) + row_text(
                *buffer,
                row as int,
                col as int,
            ));
        }
        proof {
            reveal_strlit("\n");
            assert("\n"@ =~= seq!['\n']);
        }
        text.append("\n");
        row += 1;
    }
    text
}

/// A rendering target whose content can be read back as text.
pub trait TerminalView {
    /// Whether the value can be shown.
    spec fn presentable(&self) -> bool;

    /// The text that stands for the value.
    spec fn text(&self) -> Seq<char>;

    fn terminal_view(&self) -> (text: String)
        requires
            self.presentable(),
        ensures
            text@ == self.text(),
    ;
}

impl TerminalView for Buffer {
    open spec fn presentable(&self) -> bool {
        is_screen(*self)
    }

    open spec fn text(&self) -> Seq<char> {
        screen_text(*self, self.area.height as int)
    }

    fn terminal_view(&self) -> (text: String) {
        terminal_view(self)
    }
}

} // verus!
