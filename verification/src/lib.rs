//! A shared 50 x 50 pixel canvas kept in the storage of a Soroban contract.
//!
//! Any address that authorizes the call may set the color of one cell; anyone
//! may read a cell or list the whole canvas. The last write to a cell wins.
//!
//! A contract opens its canvas with [`PixellarCanvas::open`] while it runs and
//! draws and reads through the handle. `canvas` holds the operations and
//! their contracts, `grid` and `listing` the model the contracts speak of,
//! `laws` what follows for every canvas, and `host` the calls into the SDK
//! that the proofs take on trust.

pub mod canvas;
pub mod grid;
pub mod host;
pub mod laws;
pub mod listing;

pub use canvas::{DrawError, GameEvent, HubCall, PixellarCanvas};
pub use grid::{Pixel, CANVAS_HEIGHT, CANVAS_WIDTH, PALETTE_SIZE};
