//! The order in which the canvas is listed, and what a listing holds.

use crate::grid::{in_bounds, tidy, Pixel, CANVAS_HEIGHT, CANVAS_WIDTH};
use vstd::prelude::*;

verus! {

/// A cell's place in the order of listing: the cells of one `x` stand
/// together, by `y`, and these runs follow each other by `x`.
pub open spec fn rank(cell: (u64, u64)) -> int {
    cell.0 * CANVAS_HEIGHT + cell.1
}

/// Whether `a` is listed before `b`: by `x` first, then by `y`.
pub open spec fn precedes(a: (u64, u64), b: (u64, u64)) -> bool {
    a.0 < b.0 || (a.0 == b.0 && a.1 < b.1)
}

/// Whether `listing` has an entry for `cell`.
pub open spec fn shows(listing: Seq<((u64, u64), Pixel)>, cell: (u64, u64)) -> bool {
    exists|i: int| 0 <= i < listing.len() && (#[trigger] listing[i]).0 == cell
}

/// Whether `listing` is the canvas `pixels` cut off at `bound`: it holds the
/// drawn cells of rank below `bound`, each with its pixel, in listing order,
/// and nothing else.
pub open spec fn lists_below(
    listing: Seq<((u64, u64), Pixel)>,
    pixels: Map<(u64, u64), Pixel>,
    bound: int,
) -> bool {
    &&& forall|i: int|
        0 <= i < listing.len() ==> {
            let entry = #[trigger] listing[i];
            &&& in_bounds(entry.0.0, entry.0.1)
            &&& rank(entry.0) < bound
            &&& pixels.dom().contains(entry.0)
            &&& pixels[entry.0] == entry.1
        }
    &&& forall|i: int, j: int|
        0 <= i < j < listing.len() ==> precedes(
            (#[trigger] listing[i]).0,
            (#[trigger] listing[j]).0,
        )
    &&& forall|cell: (u64, u64)|
        in_bounds(cell.0, cell.1) && rank(cell) < bound && #[trigger] pixels.dom().contains(cell)
            ==> shows(listing, cell)
}

/// Whether `listing` is the whole canvas `pixels`: every drawn cell inside
/// the canvas once, with its pixel, in listing order, and nothing else.
pub open spec fn lists(listing: Seq<((u64, u64), Pixel)>, pixels: Map<(u64, u64), Pixel>) -> bool {
    lists_below(listing, pixels, CANVAS_WIDTH * CANVAS_HEIGHT)
}

/// A listing cut off at the rank of a drawn cell, with that cell appended, is
/// the listing cut off just behind that cell.
pub proof fn lemma_listing_grows(
    listing: Seq<((u64, u64), Pixel)>,
    pixels: Map<(u64, u64), Pixel>,
    cell: (u64, u64),
)
    requires
        in_bounds(cell.0, cell.1),
        lists_below(listing, pixels, rank(cell)),
        pixels.dom().contains(cell),
    ensures
        lists_below(listing.push((cell, pixels[cell])), pixels, rank(cell) + 1),
{
    let longer = listing.push((cell, pixels[cell]));
    assert forall|other: (u64, u64)|
        in_bounds(other.0, other.1) && rank(other) < rank(cell) + 1
            && #[trigger] pixels.dom().contains(other) implies shows(longer, other) by {
        if rank(other) == rank(cell) {
            assert(longer[listing.len() as int].0 == other);
        } else {
            let i = choose|i: int| 0 <= i < listing.len() && (#[trigger] listing[i]).0 == other;
            assert(longer[i].0 == other);
        }
    }
}

/// A non-empty listing without its last entry is the canvas cut off at that
/// entry's cell.
proof fn lemma_listing_shrinks(
    listing: Seq<((u64, u64), Pixel)>,
    pixels: Map<(u64, u64), Pixel>,
    bound: int,
)
    requires
        lists_below(listing, pixels, bound),
        listing.len() > 0,
    ensures
        lists_below(listing.drop_last(), pixels, rank(listing.last().0)),
{
    let shorter = listing.drop_last();
    let last = listing.last();
    assert forall|cell: (u64, u64)|
        in_bounds(cell.0, cell.1) && rank(cell) < rank(last.0)
            && #[trigger] pixels.dom().contains(cell) implies shows(shorter, cell) by {
        let i = choose|i: int| 0 <= i < listing.len() && (#[trigger] listing[i]).0 == cell;
        assert(shorter[i].0 == cell);
    }
}

/// Two listings of one canvas cut off at one bound are the same listing.
proof fn lemma_cut_is_determined(
    a: Seq<((u64, u64), Pixel)>,
    b: Seq<((u64, u64), Pixel)>,
    pixels: Map<(u64, u64), Pixel>,
    bound: int,
)
    requires
        lists_below(a, pixels, bound),
        lists_below(b, pixels, bound),
    ensures
        a == b,
    decreases a.len(),
{
    if a.len() == 0 {
        if b.len() > 0 {
            assert(shows(a, b[0].0));
        }
    } else {
        let last = a[a.len() - 1];
        let j = choose|j: int| 0 <= j < b.len() && (#[trigger] b[j]).0 == last.0;
        if j < b.len() - 1 {
            let top = b[b.len() - 1];
            assert(shows(a, top.0));
            assert(false);
        }
        lemma_listing_shrinks(a, pixels, bound);
        lemma_listing_shrinks(b, pixels, bound);
        lemma_cut_is_determined(a.drop_last(), b.drop_last(), pixels, rank(last.0));
    }
}

/// A canvas has one listing: two sequences that both list it are equal.
pub proof fn law_listing_is_determined(
    a: Seq<((u64, u64), Pixel)>,
    b: Seq<((u64, u64), Pixel)>,
    pixels: Map<(u64, u64), Pixel>,
)
    requires
        lists(a, pixels),
        lists(b, pixels),
    ensures
        a == b,
{
    lemma_cut_is_determined(a, b, pixels, CANVAS_WIDTH * CANVAS_HEIGHT);
}

/// A listing has an entry for a cell exactly where the cell lies in the
/// canvas and has been drawn; it has no cell twice, and each entry carries
/// the pixel that the cell shows.
pub proof fn law_listing_shows_the_drawn_cells(
    listing: Seq<((u64, u64), Pixel)>,
    pixels: Map<(u64, u64), Pixel>,
)
    requires
        lists(listing, pixels),
    ensures
        forall|cell: (u64, u64)| #[trigger]
            shows(listing, cell) <==> in_bounds(cell.0, cell.1) && pixels.dom().contains(cell),
        forall|i: int, j: int|
            0 <= i < j < listing.len() ==> (#[trigger] listing[i]).0 != (#[trigger] listing[j]).0,
        forall|i: int|
            0 <= i < listing.len() ==> (#[trigger] listing[i]).1 == pixels[listing[i].0],
        listing.len() <= CANVAS_WIDTH * CANVAS_HEIGHT,
{
    lemma_length_within_rank(listing, pixels, CANVAS_WIDTH * CANVAS_HEIGHT);
}

/// A listing cut off at `bound` has at most `bound` entries.
proof fn lemma_length_within_rank(
    listing: Seq<((u64, u64), Pixel)>,
    pixels: Map<(u64, u64), Pixel>,
    bound: int,
)
    requires
        lists_below(listing, pixels, bound),
        bound >= 0,
    ensures
        listing.len() <= bound,
    decreases listing.len(),
{
    if listing.len() > 0 {
        lemma_listing_shrinks(listing, pixels, bound);
        let last = listing[listing.len() - 1];
        lemma_length_within_rank(listing.drop_last(), pixels, rank(last.0));
    }
}

/// On a canvas that holds only cells of the canvas, the listing has an entry
/// for every drawn cell.
pub proof fn law_listing_of_a_tidy_canvas(
    listing: Seq<((u64, u64), Pixel)>,
    pixels: Map<(u64, u64), Pixel>,
)
    requires
        tidy(pixels),
        lists(listing, pixels),
    ensures
        forall|cell: (u64, u64)| #[trigger] shows(listing, cell) <==> pixels.dom().contains(cell),
{
    law_listing_shows_the_drawn_cells(listing, pixels);
}

} // verus!
