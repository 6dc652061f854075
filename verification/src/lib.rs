//! Layout, lookup and selection logic of a keyboard heatmap.
pub mod alice;
pub mod app;
pub mod font_loader;
pub mod key_box;
pub mod keyboard;
pub mod text;
