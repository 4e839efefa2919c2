pub mod ansi;
pub mod app;
pub mod console;
pub mod display;
pub mod fire;
pub mod frame;
pub mod frame_laws;
pub mod memory;
pub mod prompt;
pub mod rng;
pub mod screen_laws;
pub mod screens;
pub mod session;
pub mod session_laws;
pub mod signals;
pub mod size;
pub mod stage_laws;
pub mod text;
