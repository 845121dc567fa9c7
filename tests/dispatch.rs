use raccord::{
    captured_tokens, decimal_string, handle_event, Action, Client, Command, CommandPattern, DirectMessage,
    DiscordMessage, DiscordUser, GatewayEvent, Payload, Sendable, ServerMessage,
};
use twilight_model::channel::message::MessageType;

fn message(guild_id: Option<u64>, channel_id: u64, content: &str) -> DiscordMessage {
    DiscordMessage {
        id: 11,
        guild_id,
        channel_id,
        author: DiscordUser { id: 5, name: "ada".to_string(), bot: false },
        member: None,
        timestamp: "2020-05-01T10:00:00.000000+00:00".to_string(),
        edited_timestamp: None,
        kind: MessageType::Regular,
        content: content.to_string(),
        attachments: Vec::new(),
        embeds: Vec::new(),
        reactions: Vec::new(),
        application: None,
        flags: None,
    }
}

fn client(pattern: Option<&str>) -> Client {
    match Client::new("http://target".to_string(), pattern.map(|p| p.to_string())) {
        Ok(c) => c,
        Err(_) => panic!("pattern did not compile"),
    }
}

fn strings(v: &[&str]) -> Vec<String> {
    v.iter().map(|s| s.to_string()).collect()
}

#[test]
fn decimal_text_of_integers() {
    assert_eq!(decimal_string(0), "0");
    assert_eq!(decimal_string(7), "7");
    assert_eq!(decimal_string(1234567890), "1234567890");
    assert_eq!(decimal_string(u64::MAX), "18446744073709551615");
}

#[test]
fn server_message_path() {
    let m = ServerMessage::from_discord(message(Some(7), 3, "x"));
    assert_eq!(m.url(), "/server/7/channel/3/message");
    assert!(m.headers().is_empty());
}

#[test]
fn direct_message_path() {
    let m = DirectMessage::from_discord(message(None, 42, "x"));
    assert_eq!(m.url(), "/direct/42/message");
}

#[test]
fn command_path_joins_tokens() {
    let c = Command { command: strings(&["a", "b", "c"]), context: "direct", message: DirectMessage::from_discord(message(None, 42, "x")) };
    assert_eq!(c.url(), "/command/a/b/c?context=direct");
}

#[test]
fn command_path_ignores_wrapped_message() {
    let s = Command { command: strings(&["x", "y"]), context: "server", message: ServerMessage::from_discord(message(Some(1), 2, "x")) };
    let d = Command { command: strings(&["x", "y"]), context: "server", message: DirectMessage::from_discord(message(None, 9, "z")) };
    assert_eq!(s.url(), d.url());
    assert_eq!(s.url(), "/command/x/y?context=server");
}

#[test]
fn command_path_without_tokens() {
    let c = Command { command: Vec::new(), context: "server", message: ServerMessage::from_discord(message(Some(1), 2, "x")) };
    assert_eq!(c.url(), "/command/?context=server");
}

#[test]
fn bad_pattern_is_refused() {
    match Client::new("http://target".to_string(), Some("(unclosed".to_string())) {
        Ok(_) => panic!("accepted a bad pattern"),
        Err(e) => assert_eq!(e.pattern, "(unclosed"),
    }
    assert!(CommandPattern::new("[a-".to_string()).is_err());
}

#[test]
fn no_pattern_means_no_command() {
    let c = client(None);
    assert_eq!(c.parse_command("!echo hello"), None);
    assert_eq!(c.base(), "http://target");
}

#[test]
fn pattern_without_match_means_no_command() {
    let c = client(Some(r"^!echo (\w+)$"));
    assert_eq!(c.parse_command("hello there"), None);
}

#[test]
fn pattern_match_yields_groups() {
    let c = client(Some(r"^!echo (\w+)$"));
    assert_eq!(c.parse_command("!echo hello"), Some(strings(&["hello"])));
}

#[test]
fn matches_are_flattened_in_order_skipping_absent_groups() {
    let c = client(Some(r"(\w)(\d)?"));
    assert_eq!(c.parse_command("a1 b c3"), Some(strings(&["a", "1", "b", "c", "3"])));
}

#[test]
fn match_without_groups_is_an_empty_command() {
    let c = client(Some(r"^!ping$"));
    assert_eq!(c.parse_command("!ping"), Some(Vec::new()));
}

#[test]
fn captured_tokens_skip_group_zero_and_absent_groups() {
    let m = vec![
        vec![Some("ab".to_string()), Some("a".to_string()), None, Some("b".to_string())],
        vec![Some("c".to_string()), None],
    ];
    assert_eq!(captured_tokens(&m), Some(strings(&["a", "b"])));
    assert_eq!(captured_tokens(&Vec::new()), None);
    assert_eq!(captured_tokens(&vec![vec![Some("x".to_string())]]), Some(Vec::new()));
}

#[test]
fn post_appends_path_to_base() {
    let c = client(None);
    let d = c.post(DirectMessage::from_discord(message(None, 5, "x")));
    assert_eq!(d.url, "http://target/direct/5/message");
    assert!(d.headers.is_empty());
    assert_eq!(d.payload.content, "x");
}

#[test]
fn direct_message_without_pattern_is_posted_plain() {
    let c = client(None);
    match handle_event(&c, (0, GatewayEvent::MessageCreate(message(None, 77, "hi")))) {
        Action::Post(d) => {
            assert_eq!(d.url, "http://target/direct/77/message");
            match d.payload {
                Payload::Direct(m) => assert_eq!(m.content, "hi"),
                _ => panic!("expected a direct message"),
            }
        }
        _ => panic!("expected a post"),
    }
}

#[test]
fn server_command_is_posted_to_command_path() {
    let c = client(Some(r"^!echo (\w+)$"));
    match handle_event(&c, (0, GatewayEvent::MessageCreate(message(Some(7), 3, "!echo hello")))) {
        Action::Post(d) => {
            assert_eq!(d.url, "http://target/command/hello?context=server");
            match d.payload {
                Payload::ServerCommand(cmd) => {
                    assert_eq!(cmd.command, strings(&["hello"]));
                    assert_eq!(cmd.context, "server");
                    assert_eq!(cmd.message.server_id, 7);
                    assert_eq!(cmd.message.channel_id, 3);
                    assert_eq!(cmd.message.content, "!echo hello");
                }
                _ => panic!("expected a server command"),
            }
        }
        _ => panic!("expected a post"),
    }
}

#[test]
fn server_message_without_command_is_posted_plain() {
    let c = client(Some(r"^!echo (\w+)$"));
    match handle_event(&c, (0, GatewayEvent::MessageCreate(message(Some(7), 3, "just talk")))) {
        Action::Post(d) => {
            assert_eq!(d.url, "http://target/server/7/channel/3/message");
            assert!(matches!(d.payload, Payload::Server(_)));
        }
        _ => panic!("expected a post"),
    }
}

#[test]
fn direct_command_has_direct_context() {
    let c = client(Some(r"^!echo (\w+)$"));
    match handle_event(&c, (0, GatewayEvent::MessageCreate(message(None, 3, "!echo yo")))) {
        Action::Post(d) => {
            assert_eq!(d.url, "http://target/command/yo?context=direct");
            assert!(matches!(d.payload, Payload::DirectCommand(_)));
        }
        _ => panic!("expected a post"),
    }
}

#[test]
fn connection_events_are_reported_and_others_ignored() {
    let c = client(None);
    assert!(matches!(handle_event(&c, (4, GatewayEvent::ShardConnected)), Action::LogConnected(4)));
    assert!(matches!(handle_event(&c, (4, GatewayEvent::Other)), Action::Ignore));
}
