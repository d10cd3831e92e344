use speech_relay::filter::{is_markup, normalize_text, ContentFilter, MessageEvent};
use speech_relay::ids::{ChannelId, GuildId, UserId};

const SELF_USER: UserId = UserId(1);
const RELAY: ChannelId = ChannelId(100);

const GUILD: GuildId = GuildId(5);

fn filter() -> ContentFilter {
    let mut f = ContentFilter::new(SELF_USER);
    f.designate(GUILD, RELAY);
    f
}

fn message(content: &str) -> MessageEvent {
    MessageEvent {
        author: UserId(7),
        author_is_bot: false,
        guild: Some(GUILD),
        channel: RELAY,
        content: content.to_string(),
    }
}

#[test]
fn markup_characters_are_the_five_marks() {
    for c in ['*', '_', '~', '`', '|'] {
        assert!(is_markup(c));
    }
    for c in ['a', ' ', '>', '#', '-', '/', '!', '\\'] {
        assert!(!is_markup(c));
    }
}

#[test]
fn normalize_strips_markup_then_trims() {
    assert_eq!(normalize_text("hello"), "hello");
    assert_eq!(normalize_text("  **hello** _world_ "), "hello world");
    assert_eq!(normalize_text("** hi **"), "hi");
    assert_eq!(normalize_text("~~gone~~ `code` ||secret||"), "gone code secret");
    assert_eq!(normalize_text("snake_case"), "snakecase");
    assert_eq!(normalize_text("a  b"), "a  b");
    assert_eq!(normalize_text(""), "");
    assert_eq!(normalize_text(" *_~`| "), "");
    assert_eq!(normalize_text("\n こんにちは \n"), "こんにちは");
}

#[test]
fn plain_message_passes_with_its_text() {
    assert_eq!(filter().filter(&message("hello")), Some("hello".to_string()));
    assert_eq!(filter().filter(&message("  **hey** there ")), Some("hey there".to_string()));
}

#[test]
fn bots_are_rejected() {
    let mut m = message("hello");
    m.author_is_bot = true;
    assert_eq!(filter().filter(&m), None);
}

#[test]
fn own_messages_are_rejected() {
    let mut m = message("hello");
    m.author = SELF_USER;
    assert_eq!(filter().filter(&m), None);
}

#[test]
fn direct_messages_are_rejected() {
    let mut m = message("hello");
    m.guild = None;
    assert_eq!(filter().filter(&m), None);
}

#[test]
fn other_channels_are_rejected() {
    let mut m = message("hello");
    m.channel = ChannelId(101);
    assert_eq!(filter().filter(&m), None);
    assert_eq!(ContentFilter::new(SELF_USER).filter(&message("hello")), None);
}

#[test]
fn relayed_channel_of_another_guild_does_not_count() {
    let mut f = ContentFilter::new(SELF_USER);
    f.designate(GuildId(6), RELAY);
    assert_eq!(f.filter(&message("hello")), None);
    let mut m = message("hello");
    m.guild = Some(GuildId(6));
    assert_eq!(f.filter(&m), Some("hello".to_string()));
}

#[test]
fn empty_after_normalization_is_rejected() {
    assert_eq!(filter().filter(&message("")), None);
    assert_eq!(filter().filter(&message("   ")), None);
    assert_eq!(filter().filter(&message("****")), None);
    assert_eq!(filter().filter(&message(" ~~ ~~ ")), None);
}

#[test]
fn command_like_text_is_rejected() {
    assert_eq!(filter().filter(&message("/join")), None);
    assert_eq!(filter().filter(&message("!play something")), None);
    assert_eq!(filter().filter(&message("  /skip")), None);
    assert_eq!(filter().filter(&message("**!loud**")), None);
    assert_eq!(filter().filter(&message("hello!")), Some("hello!".to_string()));
    assert_eq!(filter().filter(&message("a/b")), Some("a/b".to_string()));
}

#[test]
fn designation_can_be_changed() {
    let mut f = ContentFilter::new(SELF_USER);
    assert!(!f.is_designated(GUILD, RELAY));
    f.designate(GUILD, RELAY);
    f.designate(GuildId(6), ChannelId(200));
    assert!(f.is_designated(GUILD, RELAY));
    assert!(f.is_designated(GuildId(6), ChannelId(200)));
    assert!(!f.is_designated(GUILD, ChannelId(200)));
    f.designate(GUILD, ChannelId(300));
    assert!(!f.is_designated(GUILD, RELAY));
    assert!(f.is_designated(GUILD, ChannelId(300)));
    assert_eq!(f.filter(&message("hello")), None);
    f.undesignate(GUILD);
    assert!(!f.is_designated(GUILD, ChannelId(300)));
    assert!(f.is_designated(GuildId(6), ChannelId(200)));
    f.undesignate(GUILD);
    assert!(!f.is_designated(GUILD, ChannelId(300)));
}

#[test]
fn filtering_changes_nothing() {
    let f = filter();
    let m = message("hello");
    let before = m.clone();
    assert_eq!(f.filter(&m), f.filter(&m));
    assert_eq!(m, before);
}
