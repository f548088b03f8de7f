//! The data that travels over the gateway and the REST interface.

pub mod attachment;
pub mod channel;
pub mod component;
pub mod embed;
pub mod emoji;
pub mod event;
pub mod gateway;
pub mod guild;
pub mod interaction;
pub mod json;
pub mod member;
pub mod message;
pub mod presence;
pub mod reaction;
pub mod role;
pub mod sticker;
pub mod user;

pub use channel::Channel;
pub use event::Event;
pub use guild::Guild;
pub use interaction::Interaction;
pub use interaction::InteractionResponse;
pub use interaction::InteractionResponseType;
pub use interaction::InteractionType;
pub use member::Member;
pub use message::Message;
pub use role::Role;
pub use user::User;
