//! The parts of the shell that decide how a window's surface is set up and
//! drawn.

pub mod transparent_renderer;
