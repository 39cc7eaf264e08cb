//! Coordination core of a graphical editor front-end: frame scheduling,
//! notification routing, redraw-state folding, input translation and
//! frame pacing, all verified.

pub mod commands;
pub mod handler;
pub mod msg;
pub mod pacing;
pub mod redraw;
pub mod scheduler;
pub mod settings;
pub mod text;
pub mod window;
