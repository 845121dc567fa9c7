//! Normalization and dispatch of chat gateway events: platform messages are
//! turned into a stable schema, commands are recognized in their text, and each
//! event is described as an outbound HTTP request.

pub mod command;
pub mod decimal;
pub mod dispatch;
pub mod event;
pub mod platform;
pub mod schema;

pub use command::{captured_tokens, BadCommandPattern, CommandPattern};
pub use decimal::decimal_string;
pub use dispatch::{Client, Delivery, Sendable};
pub use event::{handle_event, Action, GatewayEvent, Payload};
pub use platform::{DiscordMember, DiscordMessage, DiscordUser};
pub use schema::{Command, DirectMessage, MessageFlag, ServerMessage, User};
