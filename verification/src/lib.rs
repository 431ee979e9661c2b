//! The simulation core of a small tank game.
//!
//! A player drives a tank over a tiled floor, a camera trails the tank, and a
//! pause menu stops the game while it is open. This crate holds what happens
//! in a frame of that game, and proves it; windows, assets and drawing are
//! left to whoever runs it.
//!
//! - [`math`]: the arithmetic. Scalars are counted in thousandths and time in
//!   microseconds, so that a frame is the same on every machine.
//! - [`physics`]: what a moving entity carries, and how a frame moves it.
//! - [`input`]: the keys and the mouse wheel.
//! - [`tank`]: how the keys push and turn the player's tank.
//! - [`camera`]: the zoom, and where the camera belongs.
//! - [`menu`]: the pause menu, its overlay and its buttons.
//! - [`schedule`]: the sets of systems of a frame and their order.
//! - [`game`]: a whole frame, from the check of the menu to the figures.
//! - [`map`]: the floor.
//!
//! The library holds no trigonometry. Headings are angles; where the sine and
//! cosine of one are needed, or the heading of a velocity, the caller says
//! them.

pub mod camera;
pub mod game;
pub mod input;
pub mod map;
pub mod math;
pub mod menu;
pub mod physics;
pub mod schedule;
pub mod tank;
