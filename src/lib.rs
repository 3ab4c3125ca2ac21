//! Simulation core of an arcade driving game: vehicle dynamics, chase camera,
//! reversing latch, derived signals for cosmetic systems, and menu rules.
//!
//! All physical quantities are fixed point: an integer counts thousandths of
//! its unit (millimetres, millimetres per second, millinewtons, ...), so that
//! every formula is exact and proved free of overflow.

pub mod fixed;
pub mod car;
pub mod movement;
pub mod camera;
pub mod menu;
pub mod post_processing;
pub mod lighting;
pub mod atmosphere;
pub mod world;
