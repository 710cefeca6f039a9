//! Core of an augmented CPace key exchange over Ristretto255.

pub mod client;
mod convert;
pub mod error;
pub mod group;
pub mod hash;
pub mod messages;
pub mod render;
pub mod server;
pub mod session;
pub mod utils;
pub mod wrappers;

pub use error::Error;
