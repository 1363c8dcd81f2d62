//! A terminal "fizz" effect: bubbles that spawn at random on a character grid,
//! rise one row per tick through a fixed sequence of glyphs and pop, over text
//! captured from a subprocess.

pub mod bubbles;
pub mod canvas_fx;
pub mod capture;
pub mod clock;
pub mod controls;
pub mod draws;
pub mod grid;
pub mod neighbor;
pub mod overlay;
pub mod spawn_laws;

pub use bubbles::{advance, advance_cell, frame_glyph, frame_index, FRAME_COUNT};
pub use canvas_fx::{CanvasFX, DEFAULT_SPAWN_THRESHOLD, OVERLAY_EVERY};
pub use capture::{captured_text, join_escaped};
pub use clock::FrameClock;
pub use controls::{KeyAction, UIMainState, UserRequestType, MAX_FPS, START_FPS};
pub use draws::DrawStream;
pub use grid::{Grid, GridView};
pub use neighbor::safe_neighbor;
pub use overlay::draw_overlay;
