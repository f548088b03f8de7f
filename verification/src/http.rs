//! The REST interface: routes and their rate-limit buckets, the limiter,
//! and the request pipeline.

pub mod client;
pub mod error;
pub mod paths;
pub mod ratelimit;
pub mod routing;

pub use client::RestClient;
pub use error::DiscordApiError;
pub use ratelimit::RateLimiter;
pub use routing::Route;
