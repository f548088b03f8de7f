//! A builder for embeds.

use crate::model::embed::Embed;
use crate::model::embed::EmbedAuthor;
use crate::model::embed::EmbedField;
use crate::model::embed::EmbedFooter;
use crate::model::embed::EmbedImage;
use crate::model::embed::EmbedThumbnail;
use crate::model::embed::EmbedView;
use vstd::prelude::*;
use vstd::std_specs::convert::FromSpecImpl;
use vstd::string::StringExecFns;

verus! {

/// Builds an embed step by step. Each step sets one part and leaves the
/// others as they are.
#[derive(Debug)]
pub struct EmbedBuilder {
    inner: Embed,
}

impl View for EmbedBuilder {
    type V = EmbedView;

    closed spec fn view(&self) -> EmbedView {
        self.inner@
    }
}

impl EmbedBuilder {
    /// The embed as it stands.
    pub closed spec fn built(self) -> Embed {
        self.inner
    }

    /// A builder of an embed with nothing in it.
    pub fn new() -> (b: Self)
        ensures
            b@ == EmbedView::empty(),
    {
        EmbedBuilder { inner: Embed::empty() }
    }

    /// Sets the title.
    pub fn title(self, title: &str) -> (b: Self)
        ensures
            b@ == (EmbedView { title: Some(title@), ..self@ }),
    {
        let mut b = self;
        b.inner.title = Some(String::from_str(title));
        b
    }

    /// Sets the description.
    pub fn description(self, description: &str) -> (b: Self)
        ensures
            b@ == (EmbedView { description: Some(description@), ..self@ }),
    {
        let mut b = self;
        b.inner.description = Some(String::from_str(description));
        b
    }

    /// Sets the URL.
    pub fn url(self, url: &str) -> (b: Self)
        ensures
            b@ == (EmbedView { url: Some(url@), ..self@ }),
    {
        let mut b = self;
        b.inner.url = Some(String::from_str(url));
        b
    }

    /// Sets the timestamp.
    pub fn timestamp(self, timestamp: &str) -> (b: Self)
        ensures
            b@ == (EmbedView { timestamp: Some(timestamp@), ..self@ }),
    {
        let mut b = self;
        b.inner.timestamp = Some(String::from_str(timestamp));
        b
    }

    /// Sets the colour.
    pub fn color(self, color: u32) -> (b: Self)
        ensures
            b@ == (EmbedView { color: Some(color), ..self@ }),
    {
        let mut b = self;
        b.inner.color = Some(color);
        b
    }

    /// Sets the footer: its text and, where given, the URL of its icon.
    pub fn footer(self, text: &str, icon_url: Option<String>) -> (b: Self)
        ensures
            b@.footer matches Some(f) && f.text@ == text@ && f.icon_url == icon_url
                && f.proxy_icon_url is None,
            b@ == (EmbedView { footer: b@.footer, ..self@ }),
    {
        let mut b = self;
        b.inner.footer = Some(
            EmbedFooter { text: String::from_str(text), icon_url, proxy_icon_url: None },
        );
        b
    }

    /// Sets the image, by its URL.
    pub fn image(self, url: &str) -> (b: Self)
        ensures
            b@.image matches Some(i) && i.url@ == url@ && i.proxy_url is None && i.height is None
                && i.width is None,
            b@ == (EmbedView { image: b@.image, ..self@ }),
    {
        let mut b = self;
        b.inner.image = Some(
            EmbedImage { url: String::from_str(url), proxy_url: None, height: None, width: None },
        );
        b
    }

    /// Sets the thumbnail, by its URL.
    pub fn thumbnail(self, url: &str) -> (b: Self)
        ensures
            b@.thumbnail matches Some(t) && t.url@ == url@ && t.proxy_url is None && t.height
                is None && t.width is None,
            b@ == (EmbedView { thumbnail: b@.thumbnail, ..self@ }),
    {
        let mut b = self;
        b.inner.thumbnail = Some(
            EmbedThumbnail {
                url: String::from_str(url),
                proxy_url: None,
                height: None,
                width: None,
            },
        );
        b
    }

    /// Sets the author: the name and, where given, a URL and the URL of an
    /// icon.
    pub fn author(self, name: &str, url: Option<String>, icon_url: Option<String>) -> (b: Self)
        ensures
            b@.author matches Some(a) && a.name@ == name@ && a.url == url && a.icon_url
                == icon_url && a.proxy_icon_url is None,
            b@ == (EmbedView { author: b@.author, ..self@ }),
    {
        let mut b = self;
        b.inner.author = Some(
            EmbedAuthor { name: String::from_str(name), url, icon_url, proxy_icon_url: None },
        );
        b
    }

    /// Adds a field after those that are there.
    pub fn add_field(self, name: &str, value: &str, inline: bool) -> (b: Self)
        ensures
            b@.fields.len() == self@.fields.len() + 1,
            b@.fields.subrange(0, self@.fields.len() as int) == self@.fields,
            b@.fields.last().name@ == name@,
            b@.fields.last().value@ == value@,
            b@.fields.last().inline == inline,
            b@ == (EmbedView { fields: b@.fields, ..self@ }),
    {
        let mut b = self;
        b.inner.fields.push(
            EmbedField { name: String::from_str(name), value: String::from_str(value), inline },
        );
        assert(b.inner.fields@.subrange(0, self.inner.fields@.len() as int) =~= self.inner.fields@);
        b
    }

    /// The embed that was built.
    pub fn build(self) -> (e: Embed)
        ensures
            e == self.built(),
            e@ == self@,
    {
        self.inner
    }
}

impl From<EmbedBuilder> for Embed {
    fn from(builder: EmbedBuilder) -> (e: Embed) {
        builder.build()
    }
}

impl FromSpecImpl<EmbedBuilder> for Embed {
    open spec fn obeys_from_spec() -> bool {
        true
    }

    open spec fn from_spec(builder: EmbedBuilder) -> Embed {
        builder.built()
    }
}

} // verus!
