//! Client side of an agent-messaging service: configuration and data types,
//! response checking, endpoint and header construction, and the delivery
//! engine that decides which inbound messages reach the application and how
//! far the delivery cursor moves.
pub mod cursor;
pub mod engine;
pub mod error;
pub mod transport;
pub mod types;

pub use cursor::DeliveryCursor;
pub use engine::{
    Action, DeliveryEngine, Phase, StreamEvent, POLL_INTERVAL_MS, STREAM_BACKOFF_MS,
};
pub use error::{
    check_registration, check_response, status_is_success, ConfigField, OpenPondError, Result,
    CONFLICT,
};
pub use transport::{
    agent_url, agents_url, decimal_text, default_headers, join, messages_since_url,
    messages_url, open_stream_at, register_url, stream_builder, stream_headers, check_config,
    is_valid_header_value, message_id_or_empty, MAX_BUILDER_HEADERS,
    stream_url,
};
pub use types::{Agent, Message, OpenPondConfig, SendMessageOptions};
