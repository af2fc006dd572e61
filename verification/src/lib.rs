//! A bitboard-based chess board representation.
//!
//! [`board::BoardState`] owns twelve 64-bit piece masks (one per side and
//! piece kind), derived occupancy masks, and game metadata, and starts at the
//! standard starting position. [`render`] turns a board into its exact text
//! form. Move generation, legality and search are out of scope: this crate is
//! the board model and its invariants only.

pub mod bits;
pub mod board;
pub mod render;
