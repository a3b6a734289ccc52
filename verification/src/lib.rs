//! Discord rich presence for Blue Archive: settings normalisation, presence
//! texts, process matching and the monitor's decision logic.

pub mod clock;
pub mod config;
pub mod icon;
pub mod monitor;
pub mod presence;
pub mod settings;
pub mod text;
