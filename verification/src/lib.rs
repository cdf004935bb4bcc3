//! A client for the ResourceSpace digital asset management API.

pub mod api;
pub mod client;
pub mod error;
pub mod json;
pub mod signing;
pub mod text;
pub mod wire;

pub use error::Error;
