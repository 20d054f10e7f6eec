pub mod geometry;
pub mod motion;
pub mod world;
