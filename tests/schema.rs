use raccord::{DirectMessage, DiscordMember, DiscordMessage, DiscordUser, MessageFlag, ServerMessage, User};
use twilight_model::channel::message::MessageType;

fn message(guild_id: Option<u64>, channel_id: u64, content: &str) -> DiscordMessage {
    DiscordMessage {
        id: 11,
        guild_id,
        channel_id,
        author: DiscordUser { id: 5, name: "ada".to_string(), bot: false },
        member: None,
        timestamp: "2020-05-01T10:00:00.000000+00:00".to_string(),
        edited_timestamp: None,
        kind: MessageType::Regular,
        content: content.to_string(),
        attachments: Vec::new(),
        embeds: Vec::new(),
        reactions: Vec::new(),
        application: None,
        flags: None,
    }
}

#[test]
fn flags_from_zero_bits_are_empty() {
    assert!(MessageFlag::from_discord(0).is_empty());
}

#[test]
fn flags_from_all_bits_keep_the_fixed_order() {
    assert_eq!(
        MessageFlag::from_discord(31),
        vec![
            MessageFlag::Crossposted,
            MessageFlag::IsCrosspost,
            MessageFlag::SuppressEmbeds,
            MessageFlag::SourceMessageDeleted,
            MessageFlag::Urgent,
        ]
    );
}

#[test]
fn flags_hold_exactly_the_set_bits() {
    assert_eq!(MessageFlag::from_discord(1 | 16), vec![MessageFlag::Crossposted, MessageFlag::Urgent]);
    assert_eq!(MessageFlag::from_discord(4), vec![MessageFlag::SuppressEmbeds]);
    assert_eq!(MessageFlag::from_discord(2 | 8), vec![MessageFlag::IsCrosspost, MessageFlag::SourceMessageDeleted]);
}

#[test]
fn flags_ignore_other_platform_bits() {
    assert!(MessageFlag::from_discord(32 | 64 | 4096).is_empty());
    assert_eq!(MessageFlag::from_discord(u64::MAX).len(), 5);
}

#[test]
fn user_from_platform_has_no_roles() {
    let u = User::from_discord(&DiscordUser { id: 9, name: "bob".to_string(), bot: true });
    assert_eq!(u.id, 9);
    assert_eq!(u.name, "bob");
    assert!(u.bot);
    assert!(u.roles.is_none());
}

#[test]
fn merge_partial_member_keeps_role_order() {
    let mut u = User::from_discord(&DiscordUser { id: 9, name: "bob".to_string(), bot: false });
    u.merge_partial_member(&DiscordMember { roles: vec![30, 10, 20] });
    assert_eq!(u.roles, Some(vec![30, 10, 20]));
    assert_eq!(u.id, 9);
}

#[test]
fn server_message_without_member_has_no_roles() {
    let m = ServerMessage::from_discord(message(Some(7), 3, "hello"));
    assert_eq!(m.server_id, 7);
    assert_eq!(m.channel_id, 3);
    assert_eq!(m.id, 11);
    assert_eq!(m.content, "hello");
    assert_eq!(m.author.id, 5);
    assert_eq!(m.author.name, "ada");
    assert!(m.author.roles.is_none());
    assert!(m.flags.is_empty());
    assert_eq!(m.timestamp_created, "2020-05-01T10:00:00.000000+00:00");
    assert!(m.timestamp_edited.is_none());
}

#[test]
fn server_message_with_member_takes_its_roles() {
    let mut dis = message(Some(7), 3, "hello");
    dis.member = Some(DiscordMember { roles: vec![4, 2, 8] });
    dis.flags = Some(1 | 4);
    dis.edited_timestamp = Some("2020-05-02T10:00:00.000000+00:00".to_string());
    let m = ServerMessage::from_discord(dis);
    assert_eq!(m.author.roles, Some(vec![4, 2, 8]));
    assert_eq!(m.flags, vec![MessageFlag::Crossposted, MessageFlag::SuppressEmbeds]);
    assert_eq!(m.timestamp_edited.as_deref(), Some("2020-05-02T10:00:00.000000+00:00"));
}

#[test]
fn direct_message_copies_fields() {
    let mut dis = message(None, 12, "hi");
    dis.member = Some(DiscordMember { roles: vec![] });
    dis.flags = Some(0);
    let m = DirectMessage::from_discord(dis);
    assert_eq!(m.channel_id, 12);
    assert_eq!(m.id, 11);
    assert_eq!(m.content, "hi");
    assert_eq!(m.author.roles, Some(vec![]));
    assert!(m.flags.is_empty());
    assert_eq!(m.kind, MessageType::Regular);
}
