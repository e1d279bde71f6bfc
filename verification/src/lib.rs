//! Tasuki: a configurable statusline for Neovim, with mode, file, git and
//! diagnostics sections. Every section is a pure function of its inputs.

pub mod components;
pub mod render;
pub mod text;
pub mod theme;
