//! Connection lifecycle manager of a websocket chat client.
//!
//! The library holds every decision of the manager as a state machine over
//! plain values; the program around it performs the network work each step
//! asks for and feeds back what came of it.
pub mod chat;
pub mod laws;
pub mod net;
pub mod style;
