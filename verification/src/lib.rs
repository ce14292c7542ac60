//! Editable numeric text fields with single-owner keyboard focus, and the
//! rules that keep them in step with a scene's transforms and colours.

pub mod color;
pub mod scene;
pub mod text_input;
pub mod ui;
