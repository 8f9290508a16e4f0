pub mod input;
pub mod player;
pub mod camera;
pub mod animation;
pub mod session;
