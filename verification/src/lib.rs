//! A side-scrolling arcade game as a verified state machine: the player falls
//! under gravity and flaps upward, obstacles scroll toward it, and a run ends
//! on the ground or on a wall.
//!
//! The library decides; it never draws or reads a key. Each tick takes the
//! elapsed time and the key that was pressed, and hands back the drawing
//! commands of the frame.

pub mod config;
pub mod display;
pub mod obstacle;
pub mod player;
pub mod random;
pub mod state;
