//! A client for a compositor's two control sockets.
//!
//! The event socket announces state changes as lines `name>>field,field,...`.
//! [`stream::LineBuffer`] joins what is read into whole lines,
//! [`codec::parse_event`] decodes each line through an [`filter::EventFilter`],
//! and [`connection::HyprlandConnection`] owns at most one listener task.
//!
//! The control socket takes one [`commands::Command`] per round trip, or a
//! batch of them; [`commands::check_hyprland_response`] and
//! [`commands::check_recipe_response`] turn the answers into results.
//! [`catalog`] holds a constructor for each action, and [`arguments`] the
//! values they take.
pub mod arguments;
pub mod catalog;
pub mod codec;
pub mod commands;
pub mod connection;
pub mod errors;
pub mod events;
pub mod filter;
pub mod stream;
pub mod text;
