//! Board geometry, square notation, click handling and scene layout for a
//! chess board shown on screen. The chess rules themselves live in an engine
//! that the caller owns; this crate only decides what a click means and where
//! things are drawn.

pub mod board;
pub mod interaction;
pub mod notation;
pub mod render;
pub mod sprites;
