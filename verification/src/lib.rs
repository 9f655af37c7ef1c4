//! Verified core of a taskbar usage monitor.

pub mod canvas;
pub mod cards;
pub mod character;
pub mod critter;
pub mod detail;
pub mod dpi;
pub mod forecast;
pub mod frames;
pub mod girl;
pub mod habits;
pub mod kind;
pub mod language;
pub mod laws;
pub mod mood;
pub mod phrases;
pub mod picture;
pub mod portraits;
pub mod position;
pub mod reports;
pub mod rng;
pub mod scene;
pub mod speech;
pub mod sprite;
