//! Colors, projections and the sprite-atlas pipeline of a 2D engine: normalized
//! color channels and their arithmetic, RGBA packing and `#RRGGBBAA` text,
//! interval overlap, and the materialization of a packed atlas into sprites,
//! sheets, fonts, 9-patches and animations on one shared texture.

pub mod atlas;
pub mod channel;
pub mod color;
pub mod geom;
pub mod hex;
pub mod projection;
pub mod sprite;
pub mod text;
