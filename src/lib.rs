//! Input remapping and session decisions for an Android host of a Flash player.
pub mod keycodes;
pub mod action;
pub mod descriptor;
pub mod input;
pub mod session;
