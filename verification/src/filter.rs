use crate::ids::{ChannelId, GuildId, UserId};
use crate::text::{chars_of, text_of, trim, trim_bounds};
use std::collections::HashMap;
use vstd::prelude::*;

verus! {

broadcast use vstd::std_specs::hash::group_hash_axioms;

/// What an inbound message carries, as far as the pipeline reads it.
#[derive(Clone, Debug, PartialEq, Eq)]
pub struct MessageEvent {
    pub author: UserId,
    pub author_is_bot: bool,
    /// The guild that the message was sent in; none for a direct message.
    pub guild: Option<GuildId>,
    pub channel: ChannelId,
    pub content: String,
}

/// A [`MessageEvent`] as a mathematical value.
pub struct MessageModel {
    pub author: UserId,
    pub author_is_bot: bool,
    pub guild: Option<GuildId>,
    pub channel: ChannelId,
    pub content: Seq<char>,
}

impl View for MessageEvent {
    type V = MessageModel;

    open spec fn view(&self) -> MessageModel {
        MessageModel {
            author: self.author,
            author_is_bot: self.author_is_bot,
            guild: self.guild,
            channel: self.channel,
            content: self.content@,
        }
    }
}

/// Whether `c` is one of the characters that mark up text: emphasis, strike
/// through, code and spoiler marks.
pub open spec fn markup(c: char) -> bool {
    c == '*' || c == '_' || c == '~' || c == '`' || c == '|'
}

/// `s` without its markup characters.
pub open spec fn strip_markup(s: Seq<char>) -> Seq<char> {
    s.filter(|c: char| !markup(c))
}

/// The text that is spoken for the content `s`: the markup characters are
/// taken out, then the white space at both ends.
pub open spec fn normalize(s: Seq<char>) -> Seq<char> {
    trim(strip_markup(s))
}

/// Whether the normalized text `t` reads as a command to some bot rather
/// than as something said: it starts with `/` or `!`.
pub open spec fn command_like(t: Seq<char>) -> bool {
    t.len() > 0 && (t[0] == '/' || t[0] == '!')
}

/// A [`ContentFilter`] as a mathematical value.
pub struct FilterModel {
    pub self_user: UserId,
    /// The channel that is relayed in each guild, keyed by the guild's
    /// number; a guild without an entry has none.
    pub relay_channels: Map<u64, ChannelId>,
}

impl FilterModel {
    /// Whether messages sent in `channel` of `guild` are relayed.
    pub open spec fn relays(self, guild: GuildId, channel: ChannelId) -> bool {
        self.relay_channels.contains_key(guild.0) && self.relay_channels[guild.0] == channel
    }

    /// The filter after `channel` was made the relayed channel of `guild`.
    pub open spec fn designate(self, guild: GuildId, channel: ChannelId) -> FilterModel {
        FilterModel { relay_channels: self.relay_channels.insert(guild.0, channel), ..self }
    }

    /// The filter after `guild` was left without a relayed channel.
    pub open spec fn undesignate(self, guild: GuildId) -> FilterModel {
        FilterModel { relay_channels: self.relay_channels.remove(guild.0), ..self }
    }

    /// The text to synthesize for `message`, or none where the message is
    /// not eligible: it comes from a bot or from the relay itself, was not
    /// sent in a guild, was sent in a channel that is not the relayed one of
    /// its guild, has no text left once normalized, or reads as a command.
    pub open spec fn eligible(self, message: MessageModel) -> Option<Seq<char>> {
        let text = normalize(message.content);
        if message.author_is_bot || message.author == self.self_user {
            None
        } else if message.guild.is_none() {
            None
        } else if !self.relays(message.guild->0, message.channel) {
            None
        } else if text.len() == 0 || command_like(text) {
            None
        } else {
            Some(text)
        }
    }
}

/// Whether `c` is a markup character.
pub fn is_markup(c: char) -> (marks: bool)
    ensures
        marks == markup(c),
{
    c == '*' || c == '_' || c == '~' || c == '`' || c == '|'
}

/// The text that is spoken for the content `s`.
pub fn normalize_text(s: &str) -> (text: String)
    ensures
        text@ == normalize(s@),
{
    let chars = chars_of(s);
    let mut kept: Vec<char> = Vec::new();
    let mut i: usize = 0;
    while i < chars.len()
        invariant
            i <= chars@.len(),
            kept@ == strip_markup(chars@.take(i as int)),
        decreases chars@.len() - i,
    {
        proof {
            reveal(Seq::filter);
            assert(chars@.take(i + 1).drop_last() =~= chars@.take(i as int));
        }
        if !is_markup(chars[i]) {
            kept.push(chars[i]);
        }
        i = i + 1;
    }
    proof {
        reveal(Seq::filter);
        assert(chars@.take(i as int) =~= chars@);
        assert(kept@.subrange(0, kept@.len() as int) =~= kept@);
    }
    let (start, end) = trim_bounds(&kept, 0, kept.len());
    text_of(&kept, start, end)
}

/// Decides which messages are spoken, and as what text.
pub struct ContentFilter {
    self_user: UserId,
    relay_channels: HashMap<u64, ChannelId>,
}

impl View for ContentFilter {
    type V = FilterModel;

    closed spec fn view(&self) -> FilterModel {
        FilterModel { self_user: self.self_user, relay_channels: self.relay_channels@ }
    }
}

impl ContentFilter {
    /// A filter for a relay that is logged in as `self_user`, with no channel
    /// relayed yet.
    pub fn new(self_user: UserId) -> (filter: ContentFilter)
        ensures
            filter@ == (FilterModel { self_user, relay_channels: Map::empty() }),
    {
        ContentFilter { self_user, relay_channels: HashMap::new() }
    }

    /// Has the messages of `guild` relayed from `channel` from now on, in
    /// place of the channel that was relayed before, if any.
    pub fn designate(&mut self, guild: GuildId, channel: ChannelId)
        ensures
            final(self)@ == old(self)@.designate(guild, channel),
    {
        self.relay_channels.insert(guild.0, channel);
    }

    /// Has no messages of `guild` relayed any more.
    pub fn undesignate(&mut self, guild: GuildId)
        ensures
            final(self)@ == old(self)@.undesignate(guild),
    {
        self.relay_channels.remove(&guild.0);
    }

    /// Whether messages sent in `channel` of `guild` are relayed.
    pub fn is_designated(&self, guild: GuildId, channel: ChannelId) -> (relayed: bool)
        ensures
            relayed == self@.relays(guild, channel),
    {
        match self.relay_channels.get(&guild.0) {
            Some(relayed) => *relayed == channel,
            None => false,
        }
    }

    /// The text to synthesize for `event`, or none where the message is not
    /// eligible. Nothing is changed, and no input makes this fail.
    pub fn filter(&self, event: &MessageEvent) -> (text: Option<String>)
        ensures
            match text {
                Some(t) => self@.eligible(event@) == Some(t@),
                None => self@.eligible(event@).is_none(),
            },
    {
        if event.author_is_bot || event.author == self.self_user {
            return None;
        }
        let guild = match event.guild {
            None => {
                return None;
            },
            Some(guild) => guild,
        };
        if !self.is_designated(guild, event.channel) {
            return None;
        }
        let text = normalize_text(event.content.as_str());
        let chars = chars_of(text.as_str());
        if chars.len() == 0 || chars[0] == '/' || chars[0] == '!' {
            return None;
        }
        Some(text)
    }
}

} // verus!
