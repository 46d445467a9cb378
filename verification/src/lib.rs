//! A minimal real-time 2D rendering front end.
//!
//! The crate keeps a fixed-capacity, multi-layer geometry arena on the CPU
//! side, tracks edge-triggered input state frame by frame, and decides the
//! per-frame synchronization and draw protocol. Everything that talks to a
//! window, a GPU or a tessellation backend lives outside this crate; the
//! types here hold plain values only and carry contracts for every operation.

pub mod event;
pub mod frame;
pub mod input;
pub mod layers;
pub mod screen;

pub use event::{MouseButton, WindowEvent};
pub use input::{EdgeMap, Keys, Mouse};
pub use layers::{
    color, instance, layer_bounds, Color, Instance, Layer, LayerBounds, LayerRange, Layers,
    Vec2Bits,
};
pub use screen::Screen;

use vstd::prelude::*;

verus! {

/// Construction-time configuration of a run: the window title, the initial
/// window size (zero means the platform default), and the declared layer
/// bounds in painting order.
pub struct Setup<'a> {
    pub title: &'a str,
    pub width: u32,
    pub height: u32,
    pub layers_bounds: &'a [LayerBounds],
}

impl<'a> Setup<'a> {
    pub fn new(title: &'a str, width: u32, height: u32, layers_bounds: &'a [LayerBounds]) -> (s:
        Self)
        ensures
            s.title == title,
            s.width == width,
            s.height == height,
            s.layers_bounds == layers_bounds,
    {
        Self { title, width, height, layers_bounds }
    }
}

pub fn setup<'a>(
    title: &'a str,
    width: u32,
    height: u32,
    chunk_bounds: &'a [LayerBounds],
) -> (s: Setup<'a>)
    ensures
        s.title == title,
        s.width == width,
        s.height == height,
        s.layers_bounds == chunk_bounds,
{
    Setup::new(title, width, height, chunk_bounds)
}

} // verus!
