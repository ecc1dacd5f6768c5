//! The decisions of a terminal Matrix client: which action runs next, what each action
//! asks of the screen, the key bindings and the homeserver, what every answer leads to,
//! and how the terminal is opened, drawn and given back.
//!
//! The library performs no input or output. Each of its machines hands out the next thing
//! to do and takes back what came of it.

pub mod action;
pub mod action_laws;
pub mod application;
pub mod input;
pub mod laws;
pub mod login;
pub mod outside;
pub mod redraw;
pub mod setup;
pub mod startup;
pub mod text;
pub mod types;

