//! A terminal side-scroller: a bird falls under gravity, jumps on request and
//! has to pass through the gaps of pipes that scroll from right to left.
//!
//! The crate holds the simulation and the composition of each frame. Reading
//! keys, writing to the terminal and sleeping are left to the caller, which
//! drives [`game::Game::tick`] once per frame.

pub mod bird;
pub mod collision;
pub mod game;
pub mod pipe;
pub mod rng;
pub mod screen;
