//! The shapes of what is sent to the exchange and of what it answers.

pub mod common;
pub mod error;
pub mod general;
pub mod market;
pub mod spot;
pub mod websocket;
