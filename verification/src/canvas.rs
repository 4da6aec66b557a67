//! The canvas store: what may be drawn, and the operations on the canvas of
//! a running contract.

use crate::grid::{
    in_bounds, in_palette, shown, stamped, Pixel, CANVAS_HEIGHT, CANVAS_WIDTH, PALETTE_SIZE,
};
use crate::host::{
    contract_running, host_confirms_auth, in_contract, ledger_timestamp, read_cell, read_hub,
    stored_hub, stored_pixels, write_cell, write_hub,
};
use crate::listing::{lemma_listing_grows, lists, lists_below};
use soroban_sdk::{Address, Env, Symbol};
use vstd::prelude::*;

verus! {

/// Why a draw was refused.
#[derive(Clone, Copy, Debug, PartialEq, Eq, Structural)]
pub enum DrawError {
    /// The painter did not authorize the call.
    Unauthorized,
    /// The coordinate lies outside the canvas.
    OutOfBounds,
    /// The color is no palette index.
    InvalidColor,
}

/// Which of the two lifecycle calls the hub is to receive.
#[derive(Clone, Copy, Debug, PartialEq, Eq, Structural)]
pub enum GameEvent {
    Start,
    End,
}

/// A lifecycle call for the game hub: whom to call, and with what.
#[derive(Debug, PartialEq, Eq)]
pub struct HubCall {
    pub hub: Address,
    pub event: GameEvent,
    pub game_id: Symbol,
}

/// The lifecycle call that tells `hub` of `event` in the game `game_id`.
pub open spec fn lifecycle_call(hub: Address, event: GameEvent, game_id: Symbol) -> HubCall {
    HubCall { hub, event, game_id }
}

/// The verdict on a draw request, before anything is written: the
/// authorization is looked at first, then the coordinate, then the color.
pub open spec fn verdict(authorized: bool, x: u64, y: u64, color: u32) -> Result<(), DrawError> {
    if !authorized {
        Err(DrawError::Unauthorized)
    } else if !in_bounds(x, y) {
        Err(DrawError::OutOfBounds)
    } else if !in_palette(color) {
        Err(DrawError::InvalidColor)
    } else {
        Ok(())
    }
}

/// The canvas after a draw of `pixel` at `(x, y)` that ended in `outcome`: an
/// accepted draw replaces what the cell showed, a refused one changes
/// nothing.
pub open spec fn after_draw(
    pixels: Map<(u64, u64), Pixel>,
    outcome: Result<(), DrawError>,
    x: u64,
    y: u64,
    pixel: Pixel,
) -> Map<(u64, u64), Pixel> {
    match outcome {
        Ok(_) => pixels.insert((x, y), pixel),
        Err(_) => pixels,
    }
}

/// The canvas of the contract that is running on a host.
pub struct PixellarCanvas {
    env: Env,
}

impl PixellarCanvas {
    /// The drawn cells, by coordinate.
    pub closed spec fn pixels(&self) -> Map<(u64, u64), Pixel> {
        stored_pixels(self.env)
    }

    /// The game hub the canvas is bound to, once it is.
    pub closed spec fn hub(&self) -> Option<Address> {
        stored_hub(self.env)
    }

    /// A canvas is usable while its contract is running.
    pub closed spec fn wf(&self) -> bool {
        in_contract(self.env)
    }

    /// Opens the canvas of the contract running on `env`, if one is.
    pub fn open(env: Env) -> (canvas: Option<PixellarCanvas>)
        ensures
            canvas is Some <==> in_contract(env),
            canvas matches Some(c) ==> c.wf() && c.pixels() == stored_pixels(env) && c.hub()
                == stored_hub(env),
    {
        if contract_running(&env) {
            Some(PixellarCanvas { env })
        } else {
            None
        }
    }

    /// Binds the canvas to its game hub. A second call binds it anew.
    pub fn initialize(&mut self, game_hub: Address)
        requires
            old(self).wf(),
        ensures
            final(self).wf(),
            final(self).hub() == Some(game_hub),
            final(self).pixels() == old(self).pixels(),
    {
        write_hub(&mut self.env, &game_hub);
    }

    /// Decides a draw request from whether its painter authorized it.
    pub fn judge(authorized: bool, x: u64, y: u64, color: u32) -> (outcome: Result<(), DrawError>)
        ensures
            outcome == verdict(authorized, x, y, color),
    {
        if !authorized {
            Err(DrawError::Unauthorized)
        } else if x >= CANVAS_WIDTH || y >= CANVAS_HEIGHT {
            Err(DrawError::OutOfBounds)
        } else if color >= PALETTE_SIZE {
            Err(DrawError::InvalidColor)
        } else {
            Ok(())
        }
    }

    /// Draws with what the host has said already: `authorized` tells whether
    /// the painter authorized the call, `now` is the ledger time. A refused
    /// request changes nothing; an accepted one puts the color into the cell,
    /// stamped with the painter and the time, over whatever the cell showed.
    pub fn draw_with(
        &mut self,
        authorized: bool,
        now: u64,
        painter: Address,
        x: u64,
        y: u64,
        color: u32,
    ) -> (outcome: Result<(), DrawError>)
        requires
            old(self).wf(),
        ensures
            final(self).wf(),
            outcome == verdict(authorized, x, y, color),
            final(self).pixels() == after_draw(
                old(self).pixels(),
                outcome,
                x,
                y,
                stamped(color, painter, now),
            ),
            final(self).hub() == old(self).hub(),
    {
        match Self::judge(authorized, x, y, color) {
            Err(refusal) => Err(refusal),
            Ok(()) => {
                write_cell(&mut self.env, x, y, &Pixel { color, painter, timestamp: now });
                Ok(())
            },
        }
    }

    /// Sets the color of the cell `(x, y)` in the name of `painter`. The host
    /// is asked whether `painter` authorized the running invocation; without
    /// that the draw is refused as `Unauthorized`, whatever else it asks for.
    /// An accepted draw is stamped with the ledger time of the invocation.
    pub fn draw(&mut self, painter: Address, x: u64, y: u64, color: u32) -> (outcome: Result<
        (),
        DrawError,
    >)
        requires
            old(self).wf(),
        ensures
            final(self).wf(),
            outcome matches Err(DrawError::Unauthorized) || outcome == verdict(true, x, y, color),
            exists|now: u64|
                final(self).pixels() == after_draw(
                    old(self).pixels(),
                    outcome,
                    x,
                    y,
                    #[trigger] stamped(color, painter, now),
                ),
            final(self).hub() == old(self).hub(),
    {
        let authorized = host_confirms_auth(&self.env, &painter);
        match Self::judge(authorized, x, y, color) {
            Err(refusal) => {
                assert(self.pixels() == after_draw(
                    self.pixels(),
                    Err(refusal),
                    x,
                    y,
                    stamped(color, painter, 0),
                ));
                Err(refusal)
            },
            Ok(()) => {
                let now = ledger_timestamp(&self.env);
                self.draw_with(authorized, now, painter, x, y, color)
            },
        }
    }

    /// What the cell `(x, y)` shows; nothing outside the canvas, and nothing
    /// where nobody has drawn.
    pub fn get_pixel(&self, x: u64, y: u64) -> (pixel: Option<Pixel>)
        requires
            self.wf(),
        ensures
            pixel == shown(self.pixels(), x, y),
    {
        if x >= CANVAS_WIDTH || y >= CANVAS_HEIGHT {
            return None;
        }
        read_cell(&self.env, x, y)
    }

    /// Every drawn cell of the canvas with its pixel, ordered by `x` and,
    /// where `x` is the same, by `y`. Undrawn cells are left out.
    pub fn get_all_pixels(&self) -> (listing: Vec<((u64, u64), Pixel)>)
        requires
            self.wf(),
        ensures
            lists(listing@, self.pixels()),
    {
        let mut listing: Vec<((u64, u64), Pixel)> = Vec::new();
        let mut x: u64 = 0;
        while x < CANVAS_WIDTH
            invariant
                self.wf(),
                x <= CANVAS_WIDTH,
                lists_below(listing@, self.pixels(), x * CANVAS_HEIGHT),
            decreases CANVAS_WIDTH - x,
        {
            let mut y: u64 = 0;
            while y < CANVAS_HEIGHT
                invariant
                    self.wf(),
                    x < CANVAS_WIDTH,
                    y <= CANVAS_HEIGHT,
                    lists_below(listing@, self.pixels(), x * CANVAS_HEIGHT + y),
                decreases CANVAS_HEIGHT - y,
            {
                match read_cell(&self.env, x, y) {
                    Some(pixel) => {
                        proof {
                            lemma_listing_grows(listing@, self.pixels(), (x, y));
                        }
                        listing.push(((x, y), pixel));
                    },
                    None => {},
                }
                y += 1;
            }
            x += 1;
        }
        listing
    }

    /// The game hub the canvas is bound to, if `initialize` has bound one.
    pub fn hub_reference(&self) -> (hub: Option<Address>)
        requires
            self.wf(),
        ensures
            hub == self.hub(),
    {
        read_hub(&self.env)
    }

    /// The call that tells the game hub that the game `game_id` starts. The
    /// canvas must have been bound to its hub.
    pub fn start_game(&self, game_id: Symbol) -> (call: HubCall)
        requires
            self.wf(),
            self.hub() is Some,
        ensures
            call == lifecycle_call(self.hub().unwrap(), GameEvent::Start, game_id),
    {
        let hub = read_hub(&self.env).unwrap();
        HubCall { hub, event: GameEvent::Start, game_id }
    }

    /// The call that tells the game hub that the game `game_id` ends. The
    /// canvas must have been bound to its hub.
    pub fn end_game(&self, game_id: Symbol) -> (call: HubCall)
        requires
            self.wf(),
            self.hub() is Some,
        ensures
            call == lifecycle_call(self.hub().unwrap(), GameEvent::End, game_id),
    {
        let hub = read_hub(&self.env).unwrap();
        HubCall { hub, event: GameEvent::End, game_id }
    }

    /// The lifecycle call for `event`, or nothing where the canvas has no hub
    /// to send it to.
    pub fn hub_call(&self, event: GameEvent, game_id: Symbol) -> (call: Option<HubCall>)
        requires
            self.wf(),
        ensures
            self.hub() is None ==> call is None,
            self.hub() is Some ==> call == Some(
                lifecycle_call(self.hub().unwrap(), event, game_id),
            ),
    {
        match self.hub_reference() {
            None => None,
            Some(_) => Some(
                match event {
                    GameEvent::Start => self.start_game(game_id),
                    GameEvent::End => self.end_game(game_id),
                },
            ),
        }
    }
}

} // verus!
