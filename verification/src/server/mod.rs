//! The server's side: the registry of connected clients and the decisions
//! of the handler that serves one connection.

pub mod client_manager;
pub mod message_handler;
pub mod network;
pub mod session;
