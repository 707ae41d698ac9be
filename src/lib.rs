//! Gameplay rules of a small arcade game: a bee gathers pollen from animated
//! flower heads while an allergy meter rises near them and makes it sneeze.
//!
//! Quantities are fixed-point integers: times in milliseconds, meters (allergy,
//! rizz) in thousandths of a point, lengths in thousandths of a world unit.
//! A rate given "per second" times a step in milliseconds is thus directly a
//! change in thousandths.

pub mod ai;
pub mod bee;
pub mod config;
pub mod flower;
pub mod game;
pub mod geometry;
pub mod timer;
pub mod ui;
