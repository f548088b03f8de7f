//! Builders for the payloads of requests.

pub mod component;
pub mod embed;
pub mod interaction;
pub mod message;

pub use component::ActionRowBuilder;
pub use component::ButtonBuilder;
pub use component::SelectMenuBuilder;
pub use embed::EmbedBuilder;
pub use interaction::InteractionResponseBuilder;
pub use message::MessageBuilder;
