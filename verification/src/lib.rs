//! A small user directory service, stated and proved.
//!
//! The crate holds what the service decides and computes:
//!
//! - [`hex_id`]: how a user id is spelled in hexadecimal and read back;
//! - [`models`]: the user row and the commands that the storage layer has for
//!   the table of users;
//! - [`handlers`]: what each request asks of the table, and which response
//!   answers what the table handed back;
//! - [`table`]: the table as the handlers take it to be, and what a client
//!   observes as a consequence;
//! - [`config`]: the address that the server listens on.
//!
//! Talking to the database and to the network is left to the caller.

pub mod config;
pub mod handlers;
pub mod hex_id;
pub mod models;
pub mod table;
