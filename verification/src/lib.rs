//! One connection of a PostgreSQL v3 server, without its socket.
//!
//! The connection accepts a client, declines SSL, authenticates with a
//! cleartext password and then serves the simple query protocol and the
//! extended one (parse, bind, describe, execute, sync, close). It plans
//! and runs nothing itself, and it reads and sends nothing: whoever drives
//! it hands in what was read and what the planner, a portal or the
//! authentication service answered, and takes off the messages to send.
//!
//! - [`protocol`] holds the messages as plain values.
//! - [`session`] holds the startup parameters and the session.
//! - [`extended`] holds prepared statements, portals and plans, and derives
//!   row descriptions; [`values`] decodes the parameters of a `Bind`.
//! - [`model`] states what each command makes of a connection.
//! - [`shim`] is the connection itself: one handler for each command, each
//!   proved to compute what the model states.
//! - [`driver`] is the loop around the handlers, one step at a time.
//! - [`laws`] proves what holds of every connection.
//! - [`planner`] carries the transport handle of the physical planner.
//! - [`codec`] takes two constants from the protocol codec, [`text`] tells
//!   an empty query and writes numbers, [`error`] is the handlers' error.

pub mod codec;
pub mod driver;
pub mod error;
pub mod extended;
pub mod laws;
pub mod model;
pub mod planner;
pub mod protocol;
pub mod session;
pub mod shim;
pub mod text;
pub mod values;
