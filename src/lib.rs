//! Core of a power-menu launcher: the assembly of menu buttons from a
//! column-oriented configuration, and the keyboard/mouse navigation state
//! machine that decides which command, if any, to run.

pub mod menu_button;
pub mod rpower;
