//! Verified core of a VialRGB keyboard lighting controller.
pub mod agent;
pub mod cli;
pub mod color;
pub mod config;
pub mod effects;
pub mod error;
pub mod hid;
pub mod locale;
pub mod logging;
pub mod service;
pub mod text;
pub mod ui;
pub mod vialrgb;
