//! Building blocks for X-Plane plugins that draw their user interface with egui.
//!
//! The crate holds the decisions that sit between X-Plane's plugin API and egui:
//! screen and window geometry, input event decoding, graphics state records,
//! cursor and texture mappings. Each of them is stated by a contract and proved.
pub mod geometry;
pub mod draw;
pub mod window;
pub mod plugin;
pub mod painter;
pub mod egui_window;
pub mod data;
