//! A programmable relay switch: schedules, manual overrides and the
//! decision of whether the relay is on, all as verified logic.

pub mod clock;
pub mod config;
pub mod controller;
pub mod laws;
pub mod request;
pub mod text;
