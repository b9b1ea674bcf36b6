//! The cell buffer of ratatui, seen through the cells an image writes to.

use vstd::prelude::*;

verus! {

#[verifier::external_type_specification]
#[verifier::external_body]
pub struct ExBuffer(ratatui::buffer::Buffer);

/// The cells of a buffer that can be reached by position, keyed by (x, y): the
/// symbol each one shows and whether the renderer skips it.
pub uninterp spec fn buffer_cells(b: ratatui::buffer::Buffer) -> Map<(u16, u16), (Seq<char>, bool)>;

/// Relies on `Buffer::cell_mut`, which yields the one cell at (x, y) when that
/// position lies in the buffer, and `Cell::set_symbol`, which replaces the
/// symbol only.
#[verifier::external_body]
pub(crate) fn set_cell_symbol(buf: &mut ratatui::buffer::Buffer, x: u16, y: u16, symbol: &str)
    ensures
        buffer_cells(*final(buf)) == (if buffer_cells(*old(buf)).dom().contains((x, y)) {
            buffer_cells(*old(buf)).insert(
                (x, y),
                (symbol@, buffer_cells(*old(buf))[(x, y)].1),
            )
        } else {
            buffer_cells(*old(buf))
        }),
{
    if let Some(cell) = buf.cell_mut((x, y)) {
        cell.set_symbol(symbol);
    }
}

/// Relies on `Buffer::cell_mut`, as above, and `Cell::set_skip`, which sets the
/// skip flag only.
#[verifier::external_body]
pub(crate) fn set_cell_skip(buf: &mut ratatui::buffer::Buffer, x: u16, y: u16)
    ensures
        buffer_cells(*final(buf)) == (if buffer_cells(*old(buf)).dom().contains((x, y)) {
            buffer_cells(*old(buf)).insert((x, y), (buffer_cells(*old(buf))[(x, y)].0, true))
        } else {
            buffer_cells(*old(buf))
        }),
{
    if let Some(cell) = buf.cell_mut((x, y)) {
        cell.set_skip(true);
    }
}

} // verus!
