//! A four-in-a-row game on a 4×4 board: gravity-fed placements by two
//! teams, a win detector, a seeded random board generator, and the four
//! request verbs of the board service.
pub mod item;
pub mod grid;
pub mod placement;
pub mod random;
pub mod service;
