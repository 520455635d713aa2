//! Decision core of a garden sensor monitor: alert cooldowns, power-outage
//! detection, quiet hours and the choice of who gets a notification.

pub mod alerter;
pub mod analysis;
pub mod config;
pub mod listener;
pub mod menu;
pub mod models;
pub mod power_monitor;
pub mod responses;
pub mod text;
pub mod timezone;
