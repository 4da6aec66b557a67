//! What holds of the canvas rules whatever is drawn.

use crate::canvas::{after_draw, verdict, DrawError};
use crate::grid::{in_bounds, in_palette, shown, stamped, tidy, Pixel};
use crate::listing::{law_listing_shows_the_drawn_cells, lists, shows};
use soroban_sdk::Address;
use vstd::prelude::*;

verus! {

/// Outside the canvas an authorized draw is refused as out of bounds,
/// whatever its color, and a read finds nothing.
pub proof fn law_outside_the_canvas(pixels: Map<(u64, u64), Pixel>, x: u64, y: u64, color: u32)
    requires
        !in_bounds(x, y),
    ensures
        verdict(true, x, y, color) == Err::<(), DrawError>(DrawError::OutOfBounds),
        shown(pixels, x, y) is None,
{
}

/// On a cell of the canvas an authorized draw in a color off the palette is
/// refused as an invalid color, and the canvas stays as it was.
pub proof fn law_color_off_the_palette(
    pixels: Map<(u64, u64), Pixel>,
    x: u64,
    y: u64,
    pixel: Pixel,
)
    requires
        in_bounds(x, y),
        !in_palette(pixel.color),
    ensures
        verdict(true, x, y, pixel.color) == Err::<(), DrawError>(DrawError::InvalidColor),
        after_draw(pixels, verdict(true, x, y, pixel.color), x, y, pixel) == pixels,
{
}

/// Without authorization every draw is refused as unauthorized, and the
/// canvas stays as it was: a read of any cell gives what it gave before.
pub proof fn law_without_authorization(
    pixels: Map<(u64, u64), Pixel>,
    x: u64,
    y: u64,
    pixel: Pixel,
    read_x: u64,
    read_y: u64,
)
    ensures
        verdict(false, x, y, pixel.color) == Err::<(), DrawError>(DrawError::Unauthorized),
        after_draw(pixels, verdict(false, x, y, pixel.color), x, y, pixel) == pixels,
        shown(after_draw(pixels, verdict(false, x, y, pixel.color), x, y, pixel), read_x, read_y)
            == shown(pixels, read_x, read_y),
{
}

/// A draw is accepted exactly when it is authorized, lies on the canvas and
/// uses a color of the palette; any refused draw leaves the canvas as it was.
pub proof fn law_refusal_changes_nothing(
    pixels: Map<(u64, u64), Pixel>,
    authorized: bool,
    x: u64,
    y: u64,
    pixel: Pixel,
)
    ensures
        verdict(authorized, x, y, pixel.color) is Ok <==> authorized && in_bounds(x, y)
            && in_palette(pixel.color),
        verdict(authorized, x, y, pixel.color) is Err ==> after_draw(
            pixels,
            verdict(authorized, x, y, pixel.color),
            x,
            y,
            pixel,
        ) == pixels,
{
}

/// An accepted draw shows at its cell, and at no other: every other read
/// gives what it gave before.
pub proof fn law_draw_shows_at_its_cell(
    pixels: Map<(u64, u64), Pixel>,
    x: u64,
    y: u64,
    pixel: Pixel,
    other_x: u64,
    other_y: u64,
)
    requires
        in_bounds(x, y),
    ensures
        shown(after_draw(pixels, Ok(()), x, y, pixel), x, y) == Some(pixel),
        (other_x, other_y) != (x, y) ==> shown(
            after_draw(pixels, Ok(()), x, y, pixel),
            other_x,
            other_y,
        ) == shown(pixels, other_x, other_y),
{
}

/// Of two accepted draws on one cell the second wins: the canvas is as if the
/// first had never been made, and the cell shows the second pixel, with its
/// painter and its time.
pub proof fn law_last_draw_wins(
    pixels: Map<(u64, u64), Pixel>,
    x: u64,
    y: u64,
    first: Pixel,
    second: Pixel,
)
    requires
        in_bounds(x, y),
    ensures
        after_draw(after_draw(pixels, Ok(()), x, y, first), Ok(()), x, y, second) == after_draw(
            pixels,
            Ok(()),
            x,
            y,
            second,
        ),
        shown(after_draw(after_draw(pixels, Ok(()), x, y, first), Ok(()), x, y, second), x, y)
            == Some(second),
{
}

/// Draws keep the canvas tidy: after any draw, accepted or refused, a tidy
/// canvas holds only cells of the canvas, in colors of the palette.
pub proof fn law_draws_keep_the_canvas_tidy(
    pixels: Map<(u64, u64), Pixel>,
    authorized: bool,
    x: u64,
    y: u64,
    color: u32,
    painter: Address,
    now: u64,
)
    requires
        tidy(pixels),
    ensures
        tidy(
            after_draw(
                pixels,
                verdict(authorized, x, y, color),
                x,
                y,
                stamped(color, painter, now),
            ),
        ),
{
}

/// On a tidy canvas every read that finds a pixel finds it on a cell of the
/// canvas, in a color of the palette.
pub proof fn law_a_tidy_canvas_shows_palette_colors(
    pixels: Map<(u64, u64), Pixel>,
    x: u64,
    y: u64,
)
    requires
        tidy(pixels),
        shown(pixels, x, y) is Some,
    ensures
        in_bounds(x, y),
        in_palette(shown(pixels, x, y).unwrap().color),
{
}

/// The canvas that a series of accepted draws leaves, made one after the
/// other on an empty canvas.
pub open spec fn replayed(draws: Seq<((u64, u64), Pixel)>) -> Map<(u64, u64), Pixel>
    decreases draws.len(),
{
    if draws.len() == 0 {
        Map::empty()
    } else {
        after_draw(
            replayed(draws.drop_last()),
            Ok(()),
            draws.last().0.0,
            draws.last().0.1,
            draws.last().1,
        )
    }
}

/// Whether the draw number `i` of `draws` is the last one on its cell.
pub open spec fn is_last_on_its_cell(draws: Seq<((u64, u64), Pixel)>, i: int) -> bool {
    &&& 0 <= i < draws.len()
    &&& forall|j: int| i < j < draws.len() ==> (#[trigger] draws[j]).0 != draws[i].0
}

/// Whether some draw of `draws` is on `cell`.
pub open spec fn drawn_on(draws: Seq<((u64, u64), Pixel)>, cell: (u64, u64)) -> bool {
    exists|i: int| 0 <= i < draws.len() && (#[trigger] draws[i]).0 == cell
}

/// After a series of draws the canvas holds the cells drawn on, each with the
/// pixel of the last draw on it.
proof fn lemma_replayed_holds_the_last_draws(draws: Seq<((u64, u64), Pixel)>)
    ensures
        forall|cell: (u64, u64)| #[trigger]
            replayed(draws).dom().contains(cell) <==> drawn_on(draws, cell),
        forall|i: int| #[trigger]
            is_last_on_its_cell(draws, i) ==> replayed(draws)[draws[i].0] == draws[i].1,
    decreases draws.len(),
{
    if draws.len() > 0 {
        let before = draws.drop_last();
        let last = draws.last();
        lemma_replayed_holds_the_last_draws(before);
        assert forall|cell: (u64, u64)| #[trigger]
            replayed(draws).dom().contains(cell) <==> drawn_on(draws, cell) by {
            if drawn_on(before, cell) {
                let i = choose|i: int| 0 <= i < before.len() && (#[trigger] before[i]).0 == cell;
                assert(draws[i].0 == cell);
            }
            if drawn_on(draws, cell) && cell != last.0 {
                let i = choose|i: int| 0 <= i < draws.len() && (#[trigger] draws[i]).0 == cell;
                assert(before[i].0 == cell);
            }
            assert(replayed(before).dom().contains(cell) <==> drawn_on(before, cell));
        }
        assert forall|i: int| #[trigger] is_last_on_its_cell(draws, i) implies replayed(
            draws,
        )[draws[i].0] == draws[i].1 by {
            if i < draws.len() - 1 {
                assert(is_last_on_its_cell(before, i));
            }
        }
    }
}

/// Draws in colors of the palette on cells of the canvas, made on an empty
/// canvas, leave a tidy canvas.
pub proof fn law_replayed_draws_leave_a_tidy_canvas(draws: Seq<((u64, u64), Pixel)>)
    requires
        forall|i: int|
            0 <= i < draws.len() ==> in_bounds((#[trigger] draws[i]).0.0, draws[i].0.1)
                && in_palette(draws[i].1.color),
    ensures
        tidy(replayed(draws)),
    decreases draws.len(),
{
    if draws.len() > 0 {
        law_replayed_draws_leave_a_tidy_canvas(draws.drop_last());
    }
}

/// The listing of a canvas that was empty before a series of accepted draws
/// has an entry for every cell drawn on and for no other, and the entry of a
/// cell carries the pixel of the last draw on it.
pub proof fn law_listing_follows_the_draws(
    draws: Seq<((u64, u64), Pixel)>,
    listing: Seq<((u64, u64), Pixel)>,
)
    requires
        forall|i: int| 0 <= i < draws.len() ==> in_bounds((#[trigger] draws[i]).0.0, draws[i].0.1),
        lists(listing, replayed(draws)),
    ensures
        forall|cell: (u64, u64)| #[trigger] shows(listing, cell) <==> drawn_on(draws, cell),
        forall|i: int, k: int|
            0 <= k < listing.len() && is_last_on_its_cell(draws, i) && draws[i].0 == (
            #[trigger] listing[k]).0 ==> listing[k].1 == (#[trigger] draws[i]).1,
{
    lemma_replayed_holds_the_last_draws(draws);
    law_listing_shows_the_drawn_cells(listing, replayed(draws));
}

} // verus!
