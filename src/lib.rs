//! Automatic day/night display colour scheduling: the decisions of a
//! gamma-control daemon, stated and proved over plain integer models.

pub mod color;
pub mod config;
pub mod schedule;
pub mod animation;
pub mod engine;
pub mod light;
pub mod mode;
pub mod timer;
