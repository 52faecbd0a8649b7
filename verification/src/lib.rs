//! The core of a terminal browser for a numbered web comic archive: which comic to
//! show next, what is kept between runs, what a comic record holds, how the
//! artwork is recoloured to the terminal's colours, and how the configuration is
//! read.

pub mod comic;
pub mod command;
pub mod config;
pub mod failure;
pub mod keys;
pub mod navigation;
pub mod recolor;
pub mod session;
pub mod state;
pub mod text;
