//! Raster images inside a character-grid terminal interface: terminal
//! graphics protocols, the adapters that place their payloads in a cell
//! buffer, and the picker that chooses a protocol.

pub mod buffer;
pub mod geometry;
pub mod iterm2;
pub mod picker;
pub mod raster;
pub mod text;
