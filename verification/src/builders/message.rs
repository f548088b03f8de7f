//! A builder for messages.

use crate::text::opt_text;
use crate::model::embed::Embed;
use crate::model::message::AllowedMentionType;
use crate::model::message::AllowedMentions;
use crate::model::message::MessageReference;
use crate::snowflake::Snowflake;
use vstd::prelude::*;
use vstd::string::StringExecFns;

verus! {

/// Builds the payload of a message step by step. Each step sets one part
/// and leaves the others as they are; a part that was never set is left
/// out of the payload.
#[derive(Debug)]
pub struct MessageBuilder {
    pub content: Option<String>,
    pub embeds: Option<Vec<Embed>>,
    pub allowed_mentions: Option<AllowedMentions>,
    pub message_reference: Option<MessageReference>,
    pub tts: Option<bool>,
}

/// The embeds of a list, or none where there is no list.
pub open spec fn embeds_of(embeds: Option<Vec<Embed>>) -> Seq<Embed> {
    match embeds {
        Some(v) => v@,
        None => Seq::empty(),
    }
}

/// What may be mentioned, or nothing where nothing was said.
pub open spec fn parse_of(mentions: Option<AllowedMentions>) -> Seq<AllowedMentionType> {
    match mentions {
        Some(m) => m.parse@,
        None => Seq::empty(),
    }
}

/// Mentions that allow nothing.
pub fn no_mentions() -> (m: AllowedMentions)
    ensures
        m.parse@.len() == 0,
        m.roles@.len() == 0,
        m.users@.len() == 0,
        !m.replied_user,
{
    AllowedMentions { parse: Vec::new(), roles: Vec::new(), users: Vec::new(), replied_user: false }
}

fn allows_everyone(parse: &Vec<AllowedMentionType>) -> (r: bool)
    ensures
        r == parse@.contains(AllowedMentionType::Everyone),
{
    let mut i: usize = 0;
    while i < parse.len()
        invariant
            i <= parse.len(),
            forall|j: int| 0 <= j < i ==> parse@[j] != AllowedMentionType::Everyone,
        decreases parse.len() - i,
    {
        match parse[i] {
            AllowedMentionType::Everyone => {
                return true;
            },
            _ => {},
        }
        i += 1;
    }
    false
}

impl MessageBuilder {
    /// A builder of a message with no part set.
    pub fn new() -> (b: Self)
        ensures
            b.content is None,
            b.embeds is None,
            b.allowed_mentions is None,
            b.message_reference is None,
            b.tts is None,
    {
        MessageBuilder {
            content: None,
            embeds: None,
            allowed_mentions: None,
            message_reference: None,
            tts: None,
        }
    }

    /// Sets the text.
    pub fn content(self, content: &str) -> (b: Self)
        ensures
            opt_text(b.content) == Some(content@),
            b.embeds == self.embeds,
            b.allowed_mentions == self.allowed_mentions,
            b.message_reference == self.message_reference,
            b.tts == self.tts,
    {
        let mut b = self;
        b.content = Some(String::from_str(content));
        b
    }

    /// Adds an embed after those that are there.
    pub fn add_embed(self, embed: Embed) -> (b: Self)
        ensures
            b.embeds is Some,
            embeds_of(b.embeds) == embeds_of(self.embeds).push(embed),
            b.content == self.content,
            b.allowed_mentions == self.allowed_mentions,
            b.message_reference == self.message_reference,
            b.tts == self.tts,
    {
        let mut b = self;
        let mut embeds = match b.embeds {
            Some(v) => v,
            None => Vec::new(),
        };
        embeds.push(embed);
        b.embeds = Some(embeds);
        b
    }

    /// Sets the embeds, in place of those that are there.
    pub fn embeds(self, embeds: Vec<Embed>) -> (b: Self)
        ensures
            b.embeds == Some(embeds),
            b.content == self.content,
            b.allowed_mentions == self.allowed_mentions,
            b.message_reference == self.message_reference,
            b.tts == self.tts,
    {
        let mut b = self;
        b.embeds = Some(embeds);
        b
    }

    /// Sets what may be mentioned.
    pub fn allowed_mentions(self, allowed_mentions: AllowedMentions) -> (b: Self)
        ensures
            b.allowed_mentions == Some(allowed_mentions),
            b.content == self.content,
            b.embeds == self.embeds,
            b.message_reference == self.message_reference,
            b.tts == self.tts,
    {
        let mut b = self;
        b.allowed_mentions = Some(allowed_mentions);
        b
    }

    /// Allows the mention of everyone, once: where it is allowed
    /// already, nothing changes.
    pub fn mention_everyone(self) -> (b: Self)
        ensures
            b.allowed_mentions is Some,
            parse_of(b.allowed_mentions) == if parse_of(self.allowed_mentions).contains(
                AllowedMentionType::Everyone,
            ) {
                parse_of(self.allowed_mentions)
            } else {
                parse_of(self.allowed_mentions).push(AllowedMentionType::Everyone)
            },
            parse_of(b.allowed_mentions).contains(AllowedMentionType::Everyone),
            match self.allowed_mentions {
                Some(m) => b.allowed_mentions->0.roles == m.roles && b.allowed_mentions->0.users
                    == m.users && b.allowed_mentions->0.replied_user == m.replied_user,
                None => b.allowed_mentions->0.roles@.len() == 0 && b.allowed_mentions->0.users@.len()
                    == 0 && !b.allowed_mentions->0.replied_user,
            },
            b.content == self.content,
            b.embeds == self.embeds,
            b.message_reference == self.message_reference,
            b.tts == self.tts,
    {
        let mut b = self;
        let mut mentions = match b.allowed_mentions {
            Some(m) => m,
            None => no_mentions(),
        };
        if !allows_everyone(&mentions.parse) {
            let ghost before = mentions.parse@;
            mentions.parse.push(AllowedMentionType::Everyone);
            assert(mentions.parse@[before.len() as int] == AllowedMentionType::Everyone);
        }
        b.allowed_mentions = Some(mentions);
        b
    }

    /// Makes the message a reply to the message `message_id`.
    pub fn reply(
        self,
        message_id: Snowflake,
        channel_id: Option<Snowflake>,
        fail_if_not_exists: bool,
    ) -> (b: Self)
        ensures
            b.message_reference == Some(
                MessageReference {
                    message_id: Some(message_id),
                    channel_id,
                    guild_id: None,
                    fail_if_not_exists: Some(fail_if_not_exists),
                },
            ),
            b.content == self.content,
            b.embeds == self.embeds,
            b.allowed_mentions == self.allowed_mentions,
            b.tts == self.tts,
    {
        let mut b = self;
        b.message_reference = Some(
            MessageReference {
                message_id: Some(message_id),
                channel_id,
                guild_id: None,
                fail_if_not_exists: Some(fail_if_not_exists),
            },
        );
        b
    }

    /// Sets whether the message is read aloud.
    pub fn tts(self, tts: bool) -> (b: Self)
        ensures
            b.tts == Some(tts),
            b.content == self.content,
            b.embeds == self.embeds,
            b.allowed_mentions == self.allowed_mentions,
            b.message_reference == self.message_reference,
    {
        let mut b = self;
        b.tts = Some(tts);
        b
    }
}

} // verus!
