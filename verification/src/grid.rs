//! The canvas as a mathematical object: a partial map from cells to pixels.

use soroban_sdk::Address;
use vstd::prelude::*;

verus! {

/// Number of columns of the canvas.
pub const CANVAS_WIDTH: u64 = 50;

/// Number of rows of the canvas.
pub const CANVAS_HEIGHT: u64 = 50;

/// Number of colors in the palette; a color is a palette index.
pub const PALETTE_SIZE: u32 = 16;

/// What one cell of the canvas currently shows.
#[derive(Clone, Debug, PartialEq, Eq)]
pub struct Pixel {
    /// Palette index, below `PALETTE_SIZE`.
    pub color: u32,
    /// The address that wrote the cell last.
    pub painter: Address,
    /// Ledger time of that write.
    pub timestamp: u64,
}

/// Whether `(x, y)` addresses a cell of the canvas.
pub open spec fn in_bounds(x: u64, y: u64) -> bool {
    x < CANVAS_WIDTH && y < CANVAS_HEIGHT
}

/// Whether `color` is an index into the palette.
pub open spec fn in_palette(color: u32) -> bool {
    color < PALETTE_SIZE
}

/// The pixel that a draw of `color` by `painter` leaves when the ledger time
/// is `now`.
pub open spec fn stamped(color: u32, painter: Address, now: u64) -> Pixel {
    Pixel { color, painter, timestamp: now }
}

/// What a reader sees at `(x, y)`: the pixel of a drawn cell of the canvas,
/// and nothing anywhere else.
pub open spec fn shown(pixels: Map<(u64, u64), Pixel>, x: u64, y: u64) -> Option<Pixel> {
    if in_bounds(x, y) && pixels.dom().contains((x, y)) {
        Some(pixels[(x, y)])
    } else {
        None
    }
}

/// Whether `pixels` holds only what draws can have put there: cells of the
/// canvas, in colors of the palette.
pub open spec fn tidy(pixels: Map<(u64, u64), Pixel>) -> bool {
    forall|cell: (u64, u64)| #[trigger]
        pixels.dom().contains(cell) ==> in_bounds(cell.0, cell.1) && in_palette(pixels[cell].color)
}

} // verus!
