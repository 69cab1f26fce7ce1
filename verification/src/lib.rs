//! Client-side logic of a publish/subscribe service: configuration,
//! duplicate suppression, message documents and the routing of received
//! messages to registered handlers.
pub mod client;
pub mod config;
pub mod document;
pub mod error;
pub mod idempotence;
pub mod json;
pub mod message;
pub mod registry;
pub mod text;

pub use client::PubSubClient;
pub use config::ClientConfig;
pub use error::{Error, Result};
pub use message::PubSubMessage;
