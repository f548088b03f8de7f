//! A builder for responses to interactions.

use crate::text::opt_text;
use crate::model::embed::Embed;
use crate::model::interaction::InteractionResponse;
use crate::model::interaction::InteractionResponseData;
use crate::model::interaction::InteractionResponseType;
use vstd::prelude::*;
use vstd::std_specs::convert::FromSpecImpl;
use vstd::string::StringExecFns;

verus! {

/// The flag of a response that its author alone sees.
pub const EPHEMERAL: u64 = 64;

/// Builds the response to an interaction: its kind and, once a part of
/// it is set, its data.
#[derive(Debug)]
pub struct InteractionResponseBuilder {
    kind: InteractionResponseType,
    data: Option<InteractionResponseData>,
}

/// Data with no part set.
pub fn no_data() -> (d: InteractionResponseData)
    ensures
        is_blank(d),
{
    InteractionResponseData {
        tts: None,
        content: None,
        embeds: None,
        allowed_mentions: None,
        flags: None,
        components: None,
        choices: None,
        custom_id: None,
        title: None,
    }
}

/// Whether no part of the data is set.
pub open spec fn is_blank(d: InteractionResponseData) -> bool {
    &&& d.tts is None
    &&& d.content is None
    &&& d.embeds is None
    &&& d.allowed_mentions is None
    &&& d.flags is None
    &&& d.components is None
    &&& d.choices is None
    &&& d.custom_id is None
    &&& d.title is None
}

/// Whether two data agree but for their text, embeds and flags.
pub open spec fn same_rest(a: InteractionResponseData, b: InteractionResponseData) -> bool {
    &&& a.tts == b.tts
    &&& a.allowed_mentions == b.allowed_mentions
    &&& a.components == b.components
    &&& a.choices == b.choices
    &&& a.custom_id == b.custom_id
    &&& a.title == b.title
}

/// The embeds of the data, or none where there is no list.
pub open spec fn data_embeds(d: InteractionResponseData) -> Seq<Embed> {
    match d.embeds {
        Some(v) => v@,
        None => Seq::empty(),
    }
}

/// The flags of the data, or none where no flag was set.
pub open spec fn data_flags(d: InteractionResponseData) -> u64 {
    match d.flags {
        Some(f) => f,
        None => 0,
    }
}

impl InteractionResponseBuilder {
    /// The kind of the response.
    pub closed spec fn kind(self) -> InteractionResponseType {
        self.kind
    }

    /// The data of the response, once a part of it is set.
    pub closed spec fn data(self) -> Option<InteractionResponseData> {
        self.data
    }

    /// Whether the data agree with `d` but for their text, embeds and
    /// flags, where `d` is blank while no data are there.
    pub open spec fn rest_as_before(self, before: Self) -> bool {
        self.data() matches Some(d) && match before.data() {
            Some(old) => same_rest(d, old),
            None => d.tts is None && d.allowed_mentions is None && d.components is None
                && d.choices is None && d.custom_id is None && d.title is None,
        }
    }

    /// The text of the data before a step, if any.
    pub open spec fn content_before(self) -> Option<Seq<char>> {
        match self.data() {
            Some(d) => opt_text(d.content),
            None => None,
        }
    }

    /// The embeds of the data before a step.
    pub open spec fn embeds_before(self) -> Seq<Embed> {
        match self.data() {
            Some(d) => data_embeds(d),
            None => Seq::empty(),
        }
    }

    /// The flags of the data before a step.
    pub open spec fn flags_before(self) -> u64 {
        match self.data() {
            Some(d) => data_flags(d),
            None => 0,
        }
    }

    /// A builder of a response of the given kind, without data.
    pub fn new(kind: InteractionResponseType) -> (b: Self)
        ensures
            b.kind() == kind,
            b.data() is None,
    {
        Self { kind, data: None }
    }

    /// A builder of a message in answer, with the given text.
    pub fn reply(content: &str) -> (b: Self)
        ensures
            b.kind() == InteractionResponseType::ChannelMessageWithSource,
            b.data() matches Some(d) && opt_text(d.content) == Some(content@) && same_rest(
                d,
                no_data_spec(),
            ) && d.embeds is None && d.flags is None,
    {
        let mut builder = Self::new(InteractionResponseType::ChannelMessageWithSource);
        let _ = builder.content(content);
        builder
    }

    /// A builder of the answer that says that a message will follow.
    pub fn defer() -> (b: Self)
        ensures
            b.kind() == InteractionResponseType::DeferredChannelMessageWithSource,
            b.data() is None,
    {
        Self::new(InteractionResponseType::DeferredChannelMessageWithSource)
    }

    fn take_data(&mut self) -> (d: InteractionResponseData)
        ensures
            final(self).kind() == old(self).kind(),
            final(self).data() is None,
            match old(self).data() {
                Some(before) => d == before,
                None => is_blank(d),
            },
    {
        match self.data.take() {
            Some(d) => d,
            None => no_data(),
        }
    }

    /// Sets the text.
    pub fn content(&mut self, content: &str) -> (r: &mut Self)
        ensures
            *final(self) == *final(r),
            r.kind() == old(self).kind(),
            r.rest_as_before(*old(self)),
            r.content_before() == Some(content@),
            r.embeds_before() == old(self).embeds_before(),
            r.data()->0.embeds is Some == (old(self).data() is Some && old(
                self,
            ).data()->0.embeds is Some),
            r.data()->0.flags == match old(self).data() {
                Some(d) => d.flags,
                None => None,
            },
    {
        let mut data = self.take_data();
        data.content = Some(String::from_str(content));
        self.data = Some(data);
        self
    }

    /// Adds an embed after those that are there.
    pub fn add_embed(&mut self, embed: Embed) -> (r: &mut Self)
        ensures
            *final(self) == *final(r),
            r.kind() == old(self).kind(),
            r.rest_as_before(*old(self)),
            r.content_before() == old(self).content_before(),
            r.data()->0.embeds is Some,
            r.embeds_before() == old(self).embeds_before().push(embed),
            r.data()->0.flags == match old(self).data() {
                Some(d) => d.flags,
                None => None,
            },
    {
        let mut data = self.take_data();
        let mut embeds = match data.embeds {
            Some(v) => v,
            None => Vec::new(),
        };
        embeds.push(embed);
        data.embeds = Some(embeds);
        self.data = Some(data);
        self
    }

    /// Makes the response one that its author alone sees: sets that flag
    /// and leaves the other flags as they are.
    pub fn ephemeral(&mut self) -> (r: &mut Self)
        ensures
            *final(self) == *final(r),
            r.kind() == old(self).kind(),
            r.rest_as_before(*old(self)),
            r.content_before() == old(self).content_before(),
            r.embeds_before() == old(self).embeds_before(),
            r.data()->0.flags == Some(old(self).flags_before() | EPHEMERAL),
    {
        let mut data = self.take_data();
        let flags = match data.flags {
            Some(f) => f,
            None => 0,
        };
        data.flags = Some(flags | EPHEMERAL);
        self.data = Some(data);
        self
    }

    /// The response that was built.
    pub fn build(self) -> (r: InteractionResponse)
        ensures
            r.kind == self.kind(),
            r.data == self.data(),
    {
        InteractionResponse { kind: self.kind, data: self.data }
    }
}

/// Data with no part set.
pub open spec fn no_data_spec() -> InteractionResponseData {
    InteractionResponseData {
        tts: None,
        content: None,
        embeds: None,
        allowed_mentions: None,
        flags: None,
        components: None,
        choices: None,
        custom_id: None,
        title: None,
    }
}

impl From<InteractionResponseBuilder> for InteractionResponse {
    fn from(builder: InteractionResponseBuilder) -> (r: InteractionResponse) {
        builder.build()
    }
}

impl FromSpecImpl<InteractionResponseBuilder> for InteractionResponse {
    open spec fn obeys_from_spec() -> bool {
        true
    }

    open spec fn from_spec(builder: InteractionResponseBuilder) -> InteractionResponse {
        InteractionResponse { kind: builder.kind(), data: builder.data() }
    }
}

} // verus!
