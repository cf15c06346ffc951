//! Core logic of a terminal viewer for remotely rendered web pages.
//!
//! A remote page source delivers compressed snapshots of its viewport; the
//! codec turns one snapshot into a terminal pixel-graphics frame; a session
//! controller maps keyboard events to scroll movements and decides when a
//! new frame must be rendered; a terminal-mode model tracks the raw-mode,
//! alternate-screen and cursor flags that every session must restore on exit.

pub mod codec;
pub mod config;
pub mod controller;
pub mod error;
pub mod scroll;
pub mod terminal;
