pub mod app;
pub mod laws;
pub mod model;
pub mod player;
pub mod render;
pub mod screen;
pub mod text;
pub mod time;
