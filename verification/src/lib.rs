//! Rendering of decoded video frames as grids of terminal cells, and the
//! decisions of the decode session that produces those frames.
//!
//! A frame is held in the packed luma/chroma working layout. Each terminal
//! cell shows one source pixel, picked by nearest-neighbour sampling, either
//! as a true-colour background block or as a luminance glyph.

pub mod cli;
pub mod color;
pub mod decoder;
pub mod error;
pub mod frame;
pub mod sampler;
pub mod text;
pub mod utils;
