//! The platform's records as the library reads them: identifiers as integers,
//! timestamps as text, and the parts that are only carried along (attachments,
//! embeds, reactions, the application and the message kind) in the platform
//! model's own types.

use twilight_model::channel::message::{Embed, MessageApplication, MessageType, Reaction};
use twilight_model::channel::Attachment;
use vstd::prelude::*;

verus! {

/// A file attached to a platform message; carried through unchanged.
#[verifier::external_type_specification]
#[verifier::external_body]
pub struct ExAttachment(Attachment);

/// A rich embed of a platform message; carried through unchanged.
#[verifier::external_type_specification]
#[verifier::external_body]
pub struct ExEmbed(Embed);

/// A reaction on a platform message; carried through unchanged.
#[verifier::external_type_specification]
#[verifier::external_body]
pub struct ExReaction(Reaction);

/// The application a platform message was sent through; carried through unchanged.
#[verifier::external_type_specification]
#[verifier::external_body]
pub struct ExMessageApplication(MessageApplication);

/// The platform's message type; carried through unchanged.
#[verifier::external_type_specification]
#[verifier::external_body]
pub struct ExMessageType(MessageType);

/// A platform user record.
pub struct DiscordUser {
    pub id: u64,
    pub name: String,
    pub bot: bool,
}

/// A membership record: the author's roles in the server the message was posted in.
pub struct DiscordMember {
    pub roles: Vec<u64>,
}

/// A platform message as delivered by the gateway.
pub struct DiscordMessage {
    pub id: u64,
    /// The server the message was posted in; `None` for a direct message.
    pub guild_id: Option<u64>,
    pub channel_id: u64,
    pub author: DiscordUser,
    /// The author's membership record, when the platform attached one.
    pub member: Option<DiscordMember>,
    pub timestamp: String,
    pub edited_timestamp: Option<String>,
    pub kind: MessageType,
    pub content: String,
    pub attachments: Vec<Attachment>,
    pub embeds: Vec<Embed>,
    pub reactions: Vec<Reaction>,
    pub application: Option<MessageApplication>,
    /// The platform's flag bits, when the record has a flags field.
    pub flags: Option<u64>,
}

} // verus!
