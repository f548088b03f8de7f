//! Builders for message components: rows of buttons and menus.

use crate::model::component::ActionRow;
use crate::model::component::Button;
use crate::model::component::ButtonStyle;
use crate::model::component::Component;
use crate::model::component::SelectMenu;
use crate::model::component::SelectMenuOption;
use crate::text::opt_text;
use crate::model::emoji::Emoji;
use vstd::prelude::*;
use vstd::std_specs::convert::FromSpecImpl;
use vstd::string::StringExecFns;

verus! {

/// Builds a row of components.
#[derive(Debug)]
pub struct ActionRowBuilder {
    inner: ActionRow,
}

impl ActionRowBuilder {
    /// The row as it stands.
    pub closed spec fn built(self) -> ActionRow {
        self.inner
    }

    /// The components of the row, in order.
    pub open spec fn components(self) -> Seq<Component> {
        self.built().components@
    }

    /// A builder of an empty row.
    pub fn new() -> (b: Self)
        ensures
            b.components() == Seq::<Component>::empty(),
    {
        ActionRowBuilder { inner: ActionRow { components: Vec::new() } }
    }

    /// Adds a button at the end of the row.
    pub fn add_button(self, button: ButtonBuilder) -> (b: Self)
        ensures
            b.components() == self.components().push(Component::Button(button.built())),
    {
        let mut b = self;
        b.inner.components.push(Component::Button(button.build()));
        b
    }

    /// Adds a menu of strings at the end of the row.
    pub fn add_select_menu(self, menu: SelectMenuBuilder) -> (b: Self)
        ensures
            b.components() == self.components().push(Component::StringSelect(menu.built())),
    {
        let mut b = self;
        b.inner.components.push(Component::StringSelect(menu.build()));
        b
    }

    /// The row that was built.
    pub fn build(self) -> (row: ActionRow)
        ensures
            row == self.built(),
            row.components@ == self.components(),
    {
        self.inner
    }
}

/// Builds a button.
#[derive(Debug)]
pub struct ButtonBuilder {
    inner: Button,
}

impl ButtonBuilder {
    /// The button as it stands.
    pub closed spec fn built(self) -> Button {
        self.inner
    }

    /// A builder of a button of the given style. A link button goes to
    /// the URL `custom_id_or_url`; any other button reports under that
    /// identifier.
    pub fn new(style: ButtonStyle, custom_id_or_url: &str) -> (b: Self)
        ensures
            b.built().style == Some(style),
            b.built().label is None,
            b.built().emoji is None,
            !b.built().disabled,
            style == ButtonStyle::Link ==> b.built().custom_id is None && opt_text(b.built().url)
                == Some(custom_id_or_url@),
            style != ButtonStyle::Link ==> b.built().url is None && opt_text(b.built().custom_id)
                == Some(custom_id_or_url@),
    {
        let val = String::from_str(custom_id_or_url);
        let (custom_id, url) = if style == ButtonStyle::Link {
            (None, Some(val))
        } else {
            (Some(val), None)
        };
        ButtonBuilder {
            inner: Button { style: Some(style), label: None, emoji: None, custom_id, url, disabled: false },
        }
    }

    /// Sets the label.
    pub fn label(self, label: &str) -> (b: Self)
        ensures
            opt_text(b.built().label) == Some(label@),
            b.built().style == self.built().style,
            b.built().emoji == self.built().emoji,
            b.built().custom_id == self.built().custom_id,
            b.built().url == self.built().url,
            b.built().disabled == self.built().disabled,
    {
        let mut b = self;
        b.inner.label = Some(String::from_str(label));
        b
    }

    /// Sets the emoji.
    pub fn emoji(self, emoji: Emoji) -> (b: Self)
        ensures
            b.built() == (Button { emoji: Some(emoji), ..self.built() }),
    {
        let mut b = self;
        b.inner.emoji = Some(emoji);
        b
    }

    /// Sets whether the button is out of use.
    pub fn disabled(self, disabled: bool) -> (b: Self)
        ensures
            b.built() == (Button { disabled, ..self.built() }),
    {
        let mut b = self;
        b.inner.disabled = disabled;
        b
    }

    /// The button that was built.
    pub fn build(self) -> (button: Button)
        ensures
            button == self.built(),
    {
        self.inner
    }
}

/// Builds a menu.
#[derive(Debug)]
pub struct SelectMenuBuilder {
    inner: SelectMenu,
}

/// The options of a menu, or none where there is no list.
pub open spec fn options_of(menu: SelectMenu) -> Seq<SelectMenuOption> {
    match menu.options {
        Some(v) => v@,
        None => Seq::empty(),
    }
}

impl SelectMenuBuilder {
    /// The menu as it stands.
    pub closed spec fn built(self) -> SelectMenu {
        self.inner
    }

    /// A builder of a menu that reports under `custom_id`, with no option
    /// yet.
    pub fn new(custom_id: &str) -> (b: Self)
        ensures
            b.built().custom_id@ == custom_id@,
            b.built().options is Some,
            options_of(b.built()).len() == 0,
            b.built().channel_types is None,
            b.built().placeholder is None,
            b.built().min_values is None,
            b.built().max_values is None,
            !b.built().disabled,
    {
        SelectMenuBuilder {
            inner: SelectMenu {
                custom_id: String::from_str(custom_id),
                options: Some(Vec::new()),
                channel_types: None,
                placeholder: None,
                min_values: None,
                max_values: None,
                disabled: false,
            },
        }
    }

    /// Adds an option after those that are there.
    pub fn add_option(self, label: &str, value: &str) -> (b: Self)
        ensures
            b.built().options is Some,
            options_of(b.built()).len() == options_of(self.built()).len() + 1,
            options_of(b.built()).subrange(0, options_of(self.built()).len() as int) == options_of(
                self.built(),
            ),
            options_of(b.built()).last().label@ == label@,
            options_of(b.built()).last().value@ == value@,
            options_of(b.built()).last().description is None,
            options_of(b.built()).last().emoji is None,
            !options_of(b.built()).last().default,
            b.built().custom_id == self.built().custom_id,
            b.built().channel_types == self.built().channel_types,
            b.built().placeholder == self.built().placeholder,
            b.built().min_values == self.built().min_values,
            b.built().max_values == self.built().max_values,
            b.built().disabled == self.built().disabled,
    {
        let mut b = self;
        let mut options = match b.inner.options {
            Some(v) => v,
            None => Vec::new(),
        };
        let ghost before = options@;
        options.push(
            SelectMenuOption {
                label: String::from_str(label),
                value: String::from_str(value),
                description: None,
                emoji: None,
                default: false,
            },
        );
        assert(options@.subrange(0, before.len() as int) =~= before);
        b.inner.options = Some(options);
        b
    }

    /// Sets the text that shows while nothing is chosen.
    pub fn placeholder(self, placeholder: &str) -> (b: Self)
        ensures
            opt_text(b.built().placeholder) == Some(placeholder@),
            b.built().custom_id == self.built().custom_id,
            b.built().options == self.built().options,
            b.built().channel_types == self.built().channel_types,
            b.built().min_values == self.built().min_values,
            b.built().max_values == self.built().max_values,
            b.built().disabled == self.built().disabled,
    {
        let mut b = self;
        b.inner.placeholder = Some(String::from_str(placeholder));
        b
    }

    /// Sets the least number of options to choose.
    pub fn min_values(self, min: u32) -> (b: Self)
        ensures
            b.built() == (SelectMenu { min_values: Some(min), ..self.built() }),
    {
        let mut b = self;
        b.inner.min_values = Some(min);
        b
    }

    /// Sets the greatest number of options to choose.
    pub fn max_values(self, max: u32) -> (b: Self)
        ensures
            b.built() == (SelectMenu { max_values: Some(max), ..self.built() }),
    {
        let mut b = self;
        b.inner.max_values = Some(max);
        b
    }

    /// Sets whether the menu is out of use.
    pub fn disabled(self, disabled: bool) -> (b: Self)
        ensures
            b.built() == (SelectMenu { disabled, ..self.built() }),
    {
        let mut b = self;
        b.inner.disabled = disabled;
        b
    }

    /// The menu that was built.
    pub fn build(self) -> (menu: SelectMenu)
        ensures
            menu == self.built(),
    {
        self.inner
    }
}

impl From<ActionRowBuilder> for Component {
    fn from(builder: ActionRowBuilder) -> (c: Component) {
        Component::ActionRow(builder.build())
    }
}

impl FromSpecImpl<ActionRowBuilder> for Component {
    open spec fn obeys_from_spec() -> bool {
        true
    }

    open spec fn from_spec(builder: ActionRowBuilder) -> Component {
        Component::ActionRow(builder.built())
    }
}

} // verus!
