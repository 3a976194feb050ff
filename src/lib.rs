//! Streams of a multiplexed transport connection, as a consumer-facing
//! `Stream` and an engine-facing `Context` that exchange `Message`s.

pub mod id;
pub mod message;
pub mod context;
pub mod stream;
pub mod lifecycle;

pub use id::{is_client_initiated, is_unidirectional, is_unidirectional_send_allowed, Id, Type};
pub use message::{Error, Message};
pub use context::{Context, Delivery, EngineCall, Event, Step};
pub use stream::Stream;
