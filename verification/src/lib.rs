//! Window control and render-surface lifecycle for transparent desktop windows.

pub mod shell;
pub mod windows;
