//! The control core of a modal, keyboard-driven text editor: positions and
//! token-aware cursor motions, the editing modes, key maps and command
//! dispatch.
pub mod position;
pub mod token;
pub mod navigation;
pub mod line;
pub mod lexer;
pub mod engine;
pub mod input;
pub mod models;
pub mod commands;
