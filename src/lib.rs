//! The simulation core of a 2D platformer: axis-aligned entities that move under acceleration,
//! collide with obstacles and trigger scripted events; levels of seven entity pools that are
//! advanced tick by tick and swept of dying entities; and a smoothed, clamped camera with the
//! mapping between world and canvas coordinates.
//!
//! World quantities are fixed-point numbers counted in thousandths of a unit (`fixed::Fixed`)
//! whose arithmetic saturates, so every step is exact and total. Each public operation states
//! its result over the plain-value views in its contract.

use vstd::prelude::*;

pub mod camera;
pub mod canvas;
pub mod collision;
pub mod editor_menu;
pub mod entity;
pub mod event;
pub mod fixed;
pub mod level;
pub mod text;

verus! {

} // verus!
