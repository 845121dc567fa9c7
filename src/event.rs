//! The decision made for each gateway event: which payload, if any, goes to
//! the target, and where.

use crate::dispatch::{headers_view, strings_view, Client, Delivery, Sendable};
use crate::platform::DiscordMessage;
use crate::schema::{Command, DirectMessage, ServerMessage};
use vstd::prelude::*;

verus! {

/// A gateway event, as far as the bridge tells events apart.
pub enum GatewayEvent {
    /// A message was posted.
    MessageCreate(DiscordMessage),
    /// A connection to the gateway came up.
    ShardConnected,
    /// Any other event.
    Other,
}

/// A payload bound for the target.
pub enum Payload {
    Server(ServerMessage),
    Direct(DirectMessage),
    ServerCommand(Command<ServerMessage>),
    DirectCommand(Command<DirectMessage>),
}

impl Sendable for Payload {
    open spec fn spec_url(&self) -> Seq<char> {
        match self {
            Payload::Server(m) => m.spec_url(),
            Payload::Direct(m) => m.spec_url(),
            Payload::ServerCommand(c) => c.spec_url(),
            Payload::DirectCommand(c) => c.spec_url(),
        }
    }

    open spec fn spec_headers(&self) -> Seq<(Seq<char>, Seq<Seq<char>>)> {
        match self {
            Payload::Server(m) => m.spec_headers(),
            Payload::Direct(m) => m.spec_headers(),
            Payload::ServerCommand(c) => c.spec_headers(),
            Payload::DirectCommand(c) => c.spec_headers(),
        }
    }

    fn url(&self) -> (r: String) {
        match self {
            Payload::Server(m) => m.url(),
            Payload::Direct(m) => m.url(),
            Payload::ServerCommand(c) => c.url(),
            Payload::DirectCommand(c) => c.url(),
        }
    }

    fn headers(&self) -> (r: Vec<(String, Vec<String>)>) {
        match self {
            Payload::Server(m) => m.headers(),
            Payload::Direct(m) => m.headers(),
            Payload::ServerCommand(c) => c.headers(),
            Payload::DirectCommand(c) => c.headers(),
        }
    }
}

/// What to do for one event.
pub enum Action {
    /// Send this request to the target.
    Post(Delivery<Payload>),
    /// Report that the connection with this origin id came up.
    LogConnected(u64),
    /// Nothing.
    Ignore,
}

/// `p` is the payload for the posted message `msg`: a message with a server
/// goes out as a server message, one without as a direct message, and either
/// is wrapped as a command, with its context, when the client recognizes one
/// in its text.
pub open spec fn payload_for(target: Client, msg: DiscordMessage, p: Payload) -> bool {
    match msg.guild_id {
        Some(_) => match target.spec_command(msg.content@) {
            Some(tokens) => p matches Payload::ServerCommand(c) && strings_view(c.command@) == tokens
                && c.context@ == "server"@ && c.message.normalizes(msg),
            None => p matches Payload::Server(m) && m.normalizes(msg),
        },
        None => match target.spec_command(msg.content@) {
            Some(tokens) => p matches Payload::DirectCommand(c) && strings_view(c.command@) == tokens
                && c.context@ == "direct"@ && c.message.normalizes(msg),
            None => p matches Payload::Direct(m) && m.normalizes(msg),
        },
    }
}

/// Decides what to do for the event `event.1`, which came over the connection
/// with origin id `event.0`: a posted message becomes exactly one request to
/// the target; a connection coming up is reported; anything else is ignored.
pub fn handle_event(target: &Client, event: (u64, GatewayEvent)) -> (r: Action)
    ensures
        event.1 matches GatewayEvent::MessageCreate(msg) ==> r matches Action::Post(d)
            && payload_for(*target, msg, d.payload)
            && d.url@ == target.spec_base() + d.payload.spec_url()
            && headers_view(d.headers@) == d.payload.spec_headers(),
        event.1 is ShardConnected ==> r == Action::LogConnected(event.0),
        event.1 is Other ==> r is Ignore,
{
    let (id, event) = event;
    match event {
        GatewayEvent::MessageCreate(msg) => {
            let payload = if msg.guild_id.is_some() {
                let msg = ServerMessage::from_discord(msg);
                match target.parse_command(msg.content.as_str()) {
                    Some(command) => Payload::ServerCommand(Command { command, context: "server", message: msg }),
                    None => Payload::Server(msg),
                }
            } else {
                let msg = DirectMessage::from_discord(msg);
                match target.parse_command(msg.content.as_str()) {
                    Some(command) => Payload::DirectCommand(Command { command, context: "direct", message: msg }),
                    None => Payload::Direct(msg),
                }
            };
            Action::Post(target.post(payload))
        },
        GatewayEvent::ShardConnected => Action::LogConnected(id),
        GatewayEvent::Other => Action::Ignore,
    }
}

} // verus!
