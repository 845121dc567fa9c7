//! The platform-neutral schema: users, message flags, server and direct
//! messages, and recognized commands.

use crate::decimal::{decimal, decimal_string};
use crate::dispatch::{headers_view, strings_view, Sendable};
use crate::platform::{DiscordMember, DiscordMessage, DiscordUser};
use twilight_model::channel::message::{Embed, MessageApplication, MessageType, Reaction};
use twilight_model::channel::Attachment;
use vstd::prelude::*;

verus! {

/// A user, with the roles of their membership record once one was merged in.
pub struct User {
    pub id: u64,
    pub name: String,
    pub bot: bool,
    pub roles: Option<Vec<u64>>,
}

/// The roles of an optional list, as a sequence.
pub open spec fn roles_view(roles: Option<Vec<u64>>) -> Option<Seq<u64>> {
    match roles {
        Some(v) => Some(v@),
        None => None,
    }
}

/// The roles that normalization gives an author with the given membership record.
pub open spec fn member_roles(member: Option<DiscordMember>) -> Option<Seq<u64>> {
    match member {
        Some(m) => Some(m.roles@),
        None => None,
    }
}

impl User {
    /// `self` is the normalized form of `author` with the membership record `member`.
    pub open spec fn normalizes(&self, author: DiscordUser, member: Option<DiscordMember>) -> bool {
        &&& self.id == author.id
        &&& self.name@ == author.name@
        &&& self.bot == author.bot
        &&& roles_view(self.roles) == member_roles(member)
    }

    /// A user built from a platform user record; no roles yet.
    pub fn from_discord(dis: &DiscordUser) -> (r: User)
        ensures
            r.id == dis.id,
            r.name@ == dis.name@,
            r.bot == dis.bot,
            r.roles is None,
    {
        User { id: dis.id, name: dis.name.clone(), bot: dis.bot, roles: None }
    }

    /// Fills in the roles from a membership record, in the record's order.
    pub fn merge_partial_member(&mut self, mem: &DiscordMember)
        ensures
            final(self).id == old(self).id,
            final(self).name == old(self).name,
            final(self).bot == old(self).bot,
            roles_view(final(self).roles) == Some(mem.roles@),
    {
        let mut roles: Vec<u64> = Vec::new();
        let mut i: usize = 0;
        while i < mem.roles.len()
            invariant
                i <= mem.roles@.len(),
                roles@ == mem.roles@.take(i as int),
            decreases mem.roles@.len() - i,
        {
            roles.push(mem.roles[i]);
            i = i + 1;
            proof {
                assert(roles@ =~= mem.roles@.take(i as int));
            }
        }
        proof {
            assert(roles@ =~= mem.roles@);
        }
        self.roles = Some(roles);
    }
}

/// The author of a platform message, normalized: the user record with the
/// membership record's roles merged in when there is one.
fn author_of(author: &DiscordUser, member: &Option<DiscordMember>) -> (r: User)
    ensures
        r.normalizes(*author, *member),
{
    let mut user = User::from_discord(author);
    match member {
        Some(m) => user.merge_partial_member(m),
        None => {},
    }
    user
}

/// One flag of a platform message.
#[derive(Clone, Copy, Debug, PartialEq, Eq, Structural)]
pub enum MessageFlag {
    Crossposted,
    IsCrosspost,
    SuppressEmbeds,
    SourceMessageDeleted,
    Urgent,
}

/// The platform bit of a crossposted message.
pub const CROSSPOSTED_BIT: u64 = 1;
/// The platform bit of a message that is a crosspost.
pub const IS_CROSSPOST_BIT: u64 = 2;
/// The platform bit of a message whose embeds are suppressed.
pub const SUPPRESS_EMBEDS_BIT: u64 = 4;
/// The platform bit of a crosspost whose source was deleted.
pub const SOURCE_MESSAGE_DELETED_BIT: u64 = 8;
/// The platform bit of an urgent message.
pub const URGENT_BIT: u64 = 16;

impl MessageFlag {
    /// The platform bit that stands for this flag.
    pub open spec fn bit(self) -> u64 {
        match self {
            MessageFlag::Crossposted => CROSSPOSTED_BIT,
            MessageFlag::IsCrosspost => IS_CROSSPOST_BIT,
            MessageFlag::SuppressEmbeds => SUPPRESS_EMBEDS_BIT,
            MessageFlag::SourceMessageDeleted => SOURCE_MESSAGE_DELETED_BIT,
            MessageFlag::Urgent => URGENT_BIT,
        }
    }

    /// The position of this flag in the fixed order of flags.
    pub open spec fn rank(self) -> int {
        match self {
            MessageFlag::Crossposted => 0,
            MessageFlag::IsCrosspost => 1,
            MessageFlag::SuppressEmbeds => 2,
            MessageFlag::SourceMessageDeleted => 3,
            MessageFlag::Urgent => 4,
        }
    }

    /// The flags that the platform bits `bits` carry, in the fixed order.
    pub fn from_discord(bits: u64) -> (r: Vec<MessageFlag>)
        ensures
            r@ == flags_of(bits),
    {
        let mut flags: Vec<MessageFlag> = Vec::with_capacity(5);
        if bits & CROSSPOSTED_BIT == CROSSPOSTED_BIT {
            flags.push(MessageFlag::Crossposted);
        }
        if bits & IS_CROSSPOST_BIT == IS_CROSSPOST_BIT {
            flags.push(MessageFlag::IsCrosspost);
        }
        if bits & SUPPRESS_EMBEDS_BIT == SUPPRESS_EMBEDS_BIT {
            flags.push(MessageFlag::SuppressEmbeds);
        }
        if bits & SOURCE_MESSAGE_DELETED_BIT == SOURCE_MESSAGE_DELETED_BIT {
            flags.push(MessageFlag::SourceMessageDeleted);
        }
        if bits & URGENT_BIT == URGENT_BIT {
            flags.push(MessageFlag::Urgent);
        }
        proof {
            assert(flags@ =~= flags_of(bits));
        }
        flags
    }
}

/// `bits` has the bit `mask` set.
pub open spec fn has_bit(bits: u64, mask: u64) -> bool {
    bits & mask == mask
}

/// The one-flag sequence when the bit is set, else the empty one.
pub open spec fn flag_if(bits: u64, f: MessageFlag) -> Seq<MessageFlag> {
    if has_bit(bits, f.bit()) { seq![f] } else { Seq::empty() }
}

/// The flags of the platform bits `bits`, in the fixed order.
pub open spec fn flags_of(bits: u64) -> Seq<MessageFlag> {
    flag_if(bits, MessageFlag::Crossposted)
        + flag_if(bits, MessageFlag::IsCrosspost)
        + flag_if(bits, MessageFlag::SuppressEmbeds)
        + flag_if(bits, MessageFlag::SourceMessageDeleted)
        + flag_if(bits, MessageFlag::Urgent)
}

/// The flags of an optional flags field: none when the field is absent.
pub open spec fn flags_of_field(bits: Option<u64>) -> Seq<MessageFlag> {
    match bits {
        Some(b) => flags_of(b),
        None => Seq::empty(),
    }
}

/// The flags that platform bits yield are exactly those whose bits are set,
/// each once, in the fixed order of flags; no bits yield no flags.
pub proof fn lemma_flags_exact(bits: u64)
    ensures
        forall|f: MessageFlag| flags_of(bits).contains(f) <==> has_bit(bits, f.bit()),
        forall|i: int, j: int|
            0 <= i < j < flags_of(bits).len() ==> flags_of(bits)[i].rank() < flags_of(bits)[j].rank(),
        flags_of(0).len() == 0,
{
    assert(0u64 & 1 == 0u64 && 0u64 & 2 == 0u64 && 0u64 & 4 == 0u64 && 0u64 & 8 == 0u64
        && 0u64 & 16 == 0u64) by (bit_vector);
    let s = flags_of(bits);
    assert forall|f: MessageFlag| s.contains(f) <==> has_bit(bits, f.bit()) by {
        if has_bit(bits, f.bit()) {
            let k = match f {
                MessageFlag::Crossposted => 0,
                MessageFlag::IsCrosspost => flag_if(bits, MessageFlag::Crossposted).len() as int,
                MessageFlag::SuppressEmbeds => (flag_if(bits, MessageFlag::Crossposted)
                    + flag_if(bits, MessageFlag::IsCrosspost)).len() as int,
                MessageFlag::SourceMessageDeleted => (flag_if(bits, MessageFlag::Crossposted)
                    + flag_if(bits, MessageFlag::IsCrosspost)
                    + flag_if(bits, MessageFlag::SuppressEmbeds)).len() as int,
                MessageFlag::Urgent => (flag_if(bits, MessageFlag::Crossposted)
                    + flag_if(bits, MessageFlag::IsCrosspost)
                    + flag_if(bits, MessageFlag::SuppressEmbeds)
                    + flag_if(bits, MessageFlag::SourceMessageDeleted)).len() as int,
            };
            assert(s[k] == f);
        }
        if s.contains(f) {
            let i = choose|i: int| 0 <= i < s.len() && s[i] == f;
        }
    }
}

/// A message posted in a server channel, normalized.
pub struct ServerMessage {
    pub id: u64,
    pub server_id: u64,
    pub channel_id: u64,
    pub author: User,
    pub timestamp_created: String,
    pub timestamp_edited: Option<String>,
    pub kind: MessageType,
    pub content: String,
    pub attachments: Vec<Attachment>,
    pub embeds: Vec<Embed>,
    pub reactions: Vec<Reaction>,
    pub application: Option<MessageApplication>,
    pub flags: Vec<MessageFlag>,
}

impl ServerMessage {
    /// `self` is the normalized form of the server message `msg`.
    pub open spec fn normalizes(&self, msg: DiscordMessage) -> bool {
        &&& msg.guild_id == Some(self.server_id)
        &&& self.id == msg.id
        &&& self.channel_id == msg.channel_id
        &&& self.author.normalizes(msg.author, msg.member)
        &&& self.timestamp_created == msg.timestamp
        &&& self.timestamp_edited == msg.edited_timestamp
        &&& self.kind == msg.kind
        &&& self.content == msg.content
        &&& self.attachments == msg.attachments
        &&& self.embeds == msg.embeds
        &&& self.reactions == msg.reactions
        &&& self.application == msg.application
        &&& self.flags@ == flags_of_field(msg.flags)
    }

    /// Normalizes a message posted in a server; the message must carry its server.
    pub fn from_discord(msg: DiscordMessage) -> (r: ServerMessage)
        requires
            msg.guild_id is Some,
        ensures
            r.normalizes(msg),
    {
        let DiscordMessage {
            id, guild_id, channel_id, author, member, timestamp, edited_timestamp, kind,
            content, attachments, embeds, reactions, application, flags,
        } = msg;
        let author = author_of(&author, &member);
        let flags = flags_from_field(flags);
        let server_id = match guild_id {
            Some(g) => g,
            None => 0,
        };
        ServerMessage {
            id,
            server_id,
            channel_id,
            author,
            timestamp_created: timestamp,
            timestamp_edited: edited_timestamp,
            kind,
            content,
            attachments,
            embeds,
            reactions,
            application,
            flags,
        }
    }
}

/// The path of a plain server message: `/server/{server}/channel/{channel}/message`.
pub open spec fn server_path(server_id: u64, channel_id: u64) -> Seq<char> {
    "/server/"@ + decimal(server_id as nat) + "/channel/"@ + decimal(channel_id as nat) + "/message"@
}

impl Sendable for ServerMessage {
    open spec fn spec_url(&self) -> Seq<char> {
        server_path(self.server_id, self.channel_id)
    }

    open spec fn spec_headers(&self) -> Seq<(Seq<char>, Seq<Seq<char>>)> {
        Seq::empty()
    }

    fn url(&self) -> (r: String) {
        let mut url = String::from_str("/server/");
        url.append(decimal_string(self.server_id).as_str());
        url.append("/channel/");
        url.append(decimal_string(self.channel_id).as_str());
        url.append("/message");
        url
    }

    fn headers(&self) -> (r: Vec<(String, Vec<String>)>) {
        let r: Vec<(String, Vec<String>)> = Vec::new();
        proof {
            assert(headers_view(r@) =~= Seq::empty());
        }
        r
    }
}

/// A message posted outside any server, normalized.
pub struct DirectMessage {
    pub id: u64,
    pub channel_id: u64,
    pub author: User,
    pub timestamp_created: String,
    pub timestamp_edited: Option<String>,
    pub kind: MessageType,
    pub content: String,
    pub attachments: Vec<Attachment>,
    pub embeds: Vec<Embed>,
    pub reactions: Vec<Reaction>,
    pub application: Option<MessageApplication>,
    pub flags: Vec<MessageFlag>,
}

impl DirectMessage {
    /// `self` is the normalized form of the direct message `msg`.
    pub open spec fn normalizes(&self, msg: DiscordMessage) -> bool {
        &&& self.id == msg.id
        &&& self.channel_id == msg.channel_id
        &&& self.author.normalizes(msg.author, msg.member)
        &&& self.timestamp_created == msg.timestamp
        &&& self.timestamp_edited == msg.edited_timestamp
        &&& self.kind == msg.kind
        &&& self.content == msg.content
        &&& self.attachments == msg.attachments
        &&& self.embeds == msg.embeds
        &&& self.reactions == msg.reactions
        &&& self.application == msg.application
        &&& self.flags@ == flags_of_field(msg.flags)
    }

    /// Normalizes a message posted outside any server.
    pub fn from_discord(msg: DiscordMessage) -> (r: DirectMessage)
        ensures
            r.normalizes(msg),
    {
        let DiscordMessage {
            id, guild_id, channel_id, author, member, timestamp, edited_timestamp, kind,
            content, attachments, embeds, reactions, application, flags,
        } = msg;
        let author = author_of(&author, &member);
        let flags = flags_from_field(flags);
        DirectMessage {
            id,
            channel_id,
            author,
            timestamp_created: timestamp,
            timestamp_edited: edited_timestamp,
            kind,
            content,
            attachments,
            embeds,
            reactions,
            application,
            flags,
        }
    }
}

/// The path of a plain direct message: `/direct/{channel}/message`.
pub open spec fn direct_path(channel_id: u64) -> Seq<char> {
    "/direct/"@ + decimal(channel_id as nat) + "/message"@
}

impl Sendable for DirectMessage {
    open spec fn spec_url(&self) -> Seq<char> {
        direct_path(self.channel_id)
    }

    open spec fn spec_headers(&self) -> Seq<(Seq<char>, Seq<Seq<char>>)> {
        Seq::empty()
    }

    fn url(&self) -> (r: String) {
        let mut url = String::from_str("/direct/");
        url.append(decimal_string(self.channel_id).as_str());
        url.append("/message");
        url
    }

    fn headers(&self) -> (r: Vec<(String, Vec<String>)>) {
        let r: Vec<(String, Vec<String>)> = Vec::new();
        proof {
            assert(headers_view(r@) =~= Seq::empty());
        }
        r
    }
}

/// The flags of an optional flags field.
fn flags_from_field(bits: Option<u64>) -> (r: Vec<MessageFlag>)
    ensures
        r@ == flags_of_field(bits),
{
    match bits {
        Some(b) => MessageFlag::from_discord(b),
        None => Vec::new(),
    }
}

/// A message recognized as a command: the tokens captured from its text, the
/// context it was posted in (`"server"` or `"direct"`), and the message itself.
pub struct Command<M: Sendable> {
    pub command: Vec<String>,
    pub context: &'static str,
    pub message: M,
}

/// The tokens joined with `/` between each two.
pub open spec fn join_path(tokens: Seq<Seq<char>>) -> Seq<char>
    decreases tokens.len(),
{
    if tokens.len() == 0 {
        Seq::empty()
    } else if tokens.len() == 1 {
        tokens[0]
    } else {
        join_path(tokens.drop_last()) + seq!['/'] + tokens.last()
    }
}

/// The path of a command: `/command/{t1}/.../{tn}?context={context}`.
pub open spec fn command_path(tokens: Seq<Seq<char>>, context: Seq<char>) -> Seq<char> {
    "/command/"@ + join_path(tokens) + "?context="@ + context
}

/// The tokens joined with `/`.
fn join_tokens(tokens: &Vec<String>) -> (r: String)
    ensures
        r@ == join_path(strings_view(tokens@)),
{
    let ghost toks = strings_view(tokens@);
    let mut out = String::new();
    let mut i: usize = 0;
    proof {
        reveal_strlit("/");
        assert(toks.take(0) =~= Seq::<Seq<char>>::empty());
    }
    while i < tokens.len()
        invariant
            i <= tokens@.len(),
            toks == strings_view(tokens@),
            toks.len() == tokens@.len(),
            out@ == join_path(toks.take(i as int)),
        decreases tokens@.len() - i,
    {
        proof {
            assert(toks.take(i as int + 1).drop_last() =~= toks.take(i as int));
            assert(toks.take(i as int + 1).last() == tokens@[i as int]@);
        }
        if i > 0 {
            out.append("/");
        }
        out.append(tokens[i].as_str());
        proof {
            reveal_strlit("/");
            let next = toks.take(i as int + 1);
            assert(next.len() == i + 1);
            if i == 0 {
                assert(out@ =~= next[0]);
            } else {
                assert(out@ =~= join_path(next.drop_last()) + seq!['/'] + next.last());
            }
        }
        i = i + 1;
    }
    proof {
        assert(toks.take(i as int) =~= toks);
    }
    out
}

impl<M: Sendable> Sendable for Command<M> {
    open spec fn spec_url(&self) -> Seq<char> {
        command_path(strings_view(self.command@), self.context@)
    }

    open spec fn spec_headers(&self) -> Seq<(Seq<char>, Seq<Seq<char>>)> {
        Seq::empty()
    }

    fn url(&self) -> (r: String) {
        let mut url = String::from_str("/command/");
        url.append(join_tokens(&self.command).as_str());
        url.append("?context=");
        url.append(self.context);
        url
    }

    fn headers(&self) -> (r: Vec<(String, Vec<String>)>) {
        let r: Vec<(String, Vec<String>)> = Vec::new();
        proof {
            assert(headers_view(r@) =~= Seq::empty());
        }
        r
    }
}

/// A normalized author has no roles when no membership record came with the
/// message, and otherwise exactly the record's role ids, in the record's order.
pub proof fn lemma_roles_follow_membership(user: User, author: DiscordUser, member: Option<DiscordMember>)
    requires
        user.normalizes(author, member),
    ensures
        member is None ==> user.roles is None,
        member matches Some(m) ==> user.roles matches Some(roles) && roles@ == m.roles@,
{
}

/// A plain server message goes to `/server/{server}/channel/{channel}/message`,
/// a plain direct message to `/direct/{channel}/message`, and a command to
/// `/command/{t1}/.../{tn}?context={context}` whatever message it wraps.
pub proof fn lemma_paths(s: ServerMessage, d: DirectMessage, cs: Command<ServerMessage>, cd: Command<DirectMessage>)
    ensures
        s.spec_url() == "/server/"@ + decimal(s.server_id as nat) + "/channel/"@
            + decimal(s.channel_id as nat) + "/message"@,
        d.spec_url() == "/direct/"@ + decimal(d.channel_id as nat) + "/message"@,
        cs.spec_url() == command_path(strings_view(cs.command@), cs.context@),
        cd.spec_url() == command_path(strings_view(cd.command@), cd.context@),
        strings_view(cs.command@) == strings_view(cd.command@) && cs.context@ == cd.context@
            ==> cs.spec_url() == cd.spec_url(),
{
}

} // verus!
