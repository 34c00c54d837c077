//! Routing core of a coordinator that mediates between API users and a fleet
//! of container nodes: session authentication, presence tracking, reply
//! correlation and the request/reply façades, as verified step functions.

pub mod auth_state;
pub mod command_bus;
pub mod coordinator;
pub mod credentials;
pub mod launch;
pub mod laws;
pub mod message;
pub mod node;
pub mod node_containers;
pub mod numeral;
pub mod pending;
pub mod presence;
pub mod request_id;
pub mod rest;
pub mod session;
pub mod uptime;
pub mod ws;
