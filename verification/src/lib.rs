pub mod raster;
pub mod glyph;
pub mod avi;
pub mod notes;
pub mod app;
pub mod ratty;
pub mod scene;
pub mod input;
pub mod canvas;
pub mod sprites;
pub mod rain;
pub mod view;
pub mod panel;
