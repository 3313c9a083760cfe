//! Reads Minecraft crash reports and names the mod behind them.
pub mod laws;
pub mod model;
pub mod number;
pub mod pattern;
pub mod report;
pub mod rules;
pub mod terminal;
pub mod text;
pub mod ui;
