//! Command bus and panel compositor of a terminal dashboard.
//!
//! Independent components share one terminal. Each is addressed by commands of
//! the form `p <component> <action> [args...]`, and each may own one panel.
//! This crate holds the decisions: how a command is read and routed, which
//! panel has the keys, and where and in which order panels are drawn. What
//! touches the terminal, the network or the clock of a running program is left
//! to the caller, which performs the [`messages::Effect`]s that come back.

pub mod arguments;
pub mod consts;
pub mod globals;
pub mod handle_panic;
pub mod messages;
pub mod plugins;
pub mod text;
pub mod utils;
