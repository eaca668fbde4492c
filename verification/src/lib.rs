pub mod datetime;
pub mod display;
pub mod laws;
pub mod text;
pub mod ui;
