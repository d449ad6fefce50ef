//! Game-state simulation for a terminal snake game: the segmented body, the
//! movement, growth and self-collision rules, the wrap-around board geometry,
//! food placement, and the difficulty-driven speed curve. Rendering and input
//! polling are left to the surrounding program, which feeds plain values in
//! and draws from the returned state.

pub mod board;
pub mod introduction;
pub mod snake;
