//! The session authority of a plain-text chat relay, and the decisions of
//! the programs around it.
//!
//! Clients connect over a stream socket and are known by their remote
//! address. One authority owns the registry of live sessions and the ban
//! list. It bans hosts whose sessions send too fast or send bytes that are
//! no text, admits a session on the shared token, and relays the frames of
//! an admitted session to the other admitted sessions.
//!
//! Nothing here performs I/O or reads a clock. Each part maps a state and
//! an event to the next state and to what the caller is to do:
//!
//! - [`model`] is the authority as a mathematical state machine, and
//!   [`laws`] holds what is proved of it;
//! - [`authority`] is the executable authority, proved to compute the
//!   model, over the registries of [`registry`];
//! - [`command`] and [`notice`] hold the command table and the lines that a
//!   client is sent;
//! - [`reader`] turns one read from a socket into an event;
//! - [`token`] makes the shared secret;
//! - [`client`], [`window`] and [`palette`] are the decisions of the
//!   terminal client.

pub mod address;
pub mod assoc;
pub mod authority;
pub mod client;
pub mod command;
pub mod laws;
pub mod model;
pub mod notice;
pub mod palette;
pub mod reader;
pub mod registry;
pub mod session;
pub mod text;
pub mod token;
pub mod window;
