//! A pixel-addressable view over a borrowed RGBA framebuffer, and the
//! decisions of the run loop that draws to it.
//!
//! `PixelWindow` maps `(x, y)` coordinates onto a flat byte buffer, four
//! bytes per pixel, row after row. `EngineBuilder` collects the settings of
//! an engine, and `Step` says what a harness has to do for each event of the
//! window system. Every operation carries a contract, and Verus proves that
//! the code meets it.

pub mod capture;
pub mod color;
pub mod engine;
pub mod pixel;
pub mod tick;

pub use capture::Capture;
pub use color::{ColorRGBA, BLACK, WHITE};
pub use engine::{Config, Engine, EngineBuilder, PixenEngine, StatefullEngine, StatelessEngine};
pub use pixel::PixelWindow;
pub use tick::{Input, Outcome, Step};
