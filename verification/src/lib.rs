//! The connectivity core of a chat-platform client, without its I/O: the
//! gateway session as a state machine, the REST pipeline with its rate
//! limiter, and the shard coordinator, each a function from state and event
//! to state and commands.

pub mod builders;
pub mod cache;
pub mod collector;
pub mod config;
pub mod error;
pub mod gateway;
pub mod http;
pub mod intents;
pub mod model;
pub mod sharding;
pub mod snowflake;
pub mod text;

pub use cache::Cache;
pub use config::Config;
pub use error::DiscordError;
pub use intents::Intents;
pub use snowflake::Snowflake;
