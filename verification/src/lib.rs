//! The session engine of a message-bus client, without the wire.
//!
//! The engine decides; the program around it does. It keeps one session to a
//! broker alive across connects and disconnects, matches publish requests
//! with the answers of the broker, hands deliveries to subscribers and
//! chooses the confirmation for each. It never reads a socket, a clock or a
//! timer: what happened is handed to it as plain values, and what is to be
//! done comes back as plain values.

pub mod contracts;
pub mod interval_set;
pub mod logger;
pub mod my_sb_client;
pub mod publishers;
pub mod subscribers;
pub mod task_completion;
pub mod tcp;
pub mod tcp_client;
pub mod tcp_client_data;
pub mod text;
