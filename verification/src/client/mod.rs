//! The client's side: the line editor behind the terminal, and what the
//! client shows of the packets it receives.

pub mod input;
pub mod network;
pub mod ui;
