//! Relay core of a game-traffic proxy: frame codec, per-frame routing
//! decisions of a relay session, and its chat-command interpreter.
pub mod command;
pub mod frame;
pub mod mute;
pub mod roster;
pub mod session;
pub mod text;
