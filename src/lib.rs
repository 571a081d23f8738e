pub mod app;
pub mod egl;
pub mod events;
pub mod geometry;
pub mod matrix;
pub mod program;
pub mod swap_chain;
