//! A snake game on a torus grid whose cells are drawn as small bitmap files.
//!
//! The crate holds the simulation and the rules around it: how a coordinate
//! wraps around the grid, which turns a moving snake accepts, what one tick
//! does to the body and the food, which cells have to be redrawn after it,
//! what the files of the cells are called, and what the two cell images hold.
//! Every function is verified against its contract.

mod chance;
pub mod config;
pub mod direction;
pub mod game;
pub mod grid;
pub mod image;
pub mod names;
