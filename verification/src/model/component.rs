use crate::model::emoji::Emoji;
use vstd::prelude::*;
use vstd::std_specs::convert::FromSpecImpl;

verus! {

/// The kind of a message component. On the wire it is a number; a number that the library does
/// not know is kept as it came.
#[derive(Debug, Clone, Copy, PartialEq, Eq, Structural)]
pub enum ComponentType {
    ActionRow,
    Button,
    StringSelect,
    TextInput,
    UserSelect,
    RoleSelect,
    MentionableSelect,
    ChannelSelect,
    Unknown(u8),
}

impl ComponentType {
    /// Whether `code` is a component type that the library knows.
    pub open spec fn is_known(code: u8) -> bool {
        code == 1 || code == 2 || code == 3 || code == 4 || code == 5 || code == 6 || code == 7 || code == 8
    }

    /// The component type that `code` stands for.
    pub open spec fn of_code(code: u8) -> ComponentType {
        if code == 1 {
            ComponentType::ActionRow
        } else if code == 2 {
            ComponentType::Button
        } else if code == 3 {
            ComponentType::StringSelect
        } else if code == 4 {
            ComponentType::TextInput
        } else if code == 5 {
            ComponentType::UserSelect
        } else if code == 6 {
            ComponentType::RoleSelect
        } else if code == 7 {
            ComponentType::MentionableSelect
        } else if code == 8 {
            ComponentType::ChannelSelect
        } else {
            ComponentType::Unknown(code)
        }
    }

    /// The number that stands for the component type.
    pub open spec fn code(self) -> u8 {
        match self {
            ComponentType::ActionRow => 1,
            ComponentType::Button => 2,
            ComponentType::StringSelect => 3,
            ComponentType::TextInput => 4,
            ComponentType::UserSelect => 5,
            ComponentType::RoleSelect => 6,
            ComponentType::MentionableSelect => 7,
            ComponentType::ChannelSelect => 8,
            ComponentType::Unknown(code) => code,
        }
    }
}

impl From<u8> for ComponentType {
    fn from(v: u8) -> (r: Self) {
        match v {
            1 => ComponentType::ActionRow,
            2 => ComponentType::Button,
            3 => ComponentType::StringSelect,
            4 => ComponentType::TextInput,
            5 => ComponentType::UserSelect,
            6 => ComponentType::RoleSelect,
            7 => ComponentType::MentionableSelect,
            8 => ComponentType::ChannelSelect,
            _ => ComponentType::Unknown(v),
        }
    }
}

impl FromSpecImpl<u8> for ComponentType {
    open spec fn obeys_from_spec() -> bool {
        true
    }

    open spec fn from_spec(v: u8) -> Self {
        ComponentType::of_code(v)
    }
}

impl From<ComponentType> for u8 {
    fn from(v: ComponentType) -> (r: u8) {
        match v {
            ComponentType::ActionRow => 1,
            ComponentType::Button => 2,
            ComponentType::StringSelect => 3,
            ComponentType::TextInput => 4,
            ComponentType::UserSelect => 5,
            ComponentType::RoleSelect => 6,
            ComponentType::MentionableSelect => 7,
            ComponentType::ChannelSelect => 8,
            ComponentType::Unknown(code) => code,
        }
    }
}

impl FromSpecImpl<ComponentType> for u8 {
    open spec fn obeys_from_spec() -> bool {
        true
    }

    open spec fn from_spec(v: ComponentType) -> u8 {
        v.code()
    }
}

/// A number turned into a component type and back is the same number, whether the
/// library knows it or not; one that it does not know is kept in `Unknown`.
pub proof fn law_component_type_round_trip(code: u8)
    ensures
        ComponentType::of_code(code).code() == code,
        !ComponentType::is_known(code) <==> ComponentType::of_code(code) == ComponentType::Unknown(code),
{
}

/// The style of a button. On the wire it is a number; a number that the library does
/// not know is kept as it came.
#[derive(Debug, Clone, Copy, PartialEq, Eq, Structural)]
pub enum ButtonStyle {
    Primary,
    Secondary,
    Success,
    Danger,
    Link,
    Unknown(u8),
}

impl ButtonStyle {
    /// Whether `code` is a button style that the library knows.
    pub open spec fn is_known(code: u8) -> bool {
        code == 1 || code == 2 || code == 3 || code == 4 || code == 5
    }

    /// The button style that `code` stands for.
    pub open spec fn of_code(code: u8) -> ButtonStyle {
        if code == 1 {
            ButtonStyle::Primary
        } else if code == 2 {
            ButtonStyle::Secondary
        } else if code == 3 {
            ButtonStyle::Success
        } else if code == 4 {
            ButtonStyle::Danger
        } else if code == 5 {
            ButtonStyle::Link
        } else {
            ButtonStyle::Unknown(code)
        }
    }

    /// The number that stands for the button style.
    pub open spec fn code(self) -> u8 {
        match self {
            ButtonStyle::Primary => 1,
            ButtonStyle::Secondary => 2,
            ButtonStyle::Success => 3,
            ButtonStyle::Danger => 4,
            ButtonStyle::Link => 5,
            ButtonStyle::Unknown(code) => code,
        }
    }
}

impl From<u8> for ButtonStyle {
    fn from(v: u8) -> (r: Self) {
        match v {
            1 => ButtonStyle::Primary,
            2 => ButtonStyle::Secondary,
            3 => ButtonStyle::Success,
            4 => ButtonStyle::Danger,
            5 => ButtonStyle::Link,
            _ => ButtonStyle::Unknown(v),
        }
    }
}

impl FromSpecImpl<u8> for ButtonStyle {
    open spec fn obeys_from_spec() -> bool {
        true
    }

    open spec fn from_spec(v: u8) -> Self {
        ButtonStyle::of_code(v)
    }
}

impl From<ButtonStyle> for u8 {
    fn from(v: ButtonStyle) -> (r: u8) {
        match v {
            ButtonStyle::Primary => 1,
            ButtonStyle::Secondary => 2,
            ButtonStyle::Success => 3,
            ButtonStyle::Danger => 4,
            ButtonStyle::Link => 5,
            ButtonStyle::Unknown(code) => code,
        }
    }
}

impl FromSpecImpl<ButtonStyle> for u8 {
    open spec fn obeys_from_spec() -> bool {
        true
    }

    open spec fn from_spec(v: ButtonStyle) -> u8 {
        v.code()
    }
}

/// A number turned into a button style and back is the same number, whether the
/// library knows it or not; one that it does not know is kept in `Unknown`.
pub proof fn law_button_style_round_trip(code: u8)
    ensures
        ButtonStyle::of_code(code).code() == code,
        !ButtonStyle::is_known(code) <==> ButtonStyle::of_code(code) == ButtonStyle::Unknown(code),
{
}

#[derive(Debug)]
pub enum Component {
    ActionRow(ActionRow),
    Button(Button),
    StringSelect(SelectMenu),
    TextInput(TextInput),
    UserSelect(SelectMenu),
    RoleSelect(SelectMenu),
    MentionableSelect(SelectMenu),
    ChannelSelect(SelectMenu),
}

#[derive(Debug)]
pub struct ActionRow {
    pub components: Vec<Component>,
}

#[derive(Debug, Clone)]
pub struct Button {
    pub style: Option<ButtonStyle>,
    pub label: Option<String>,
    pub emoji: Option<Emoji>,
    pub custom_id: Option<String>,
    pub url: Option<String>,
    pub disabled: bool,
}

#[derive(Debug, Clone)]
pub struct SelectMenu {
    pub custom_id: String,
    pub options: Option<Vec<SelectMenuOption>>,
    pub channel_types: Option<Vec<u8>>,
    pub placeholder: Option<String>,
    pub min_values: Option<u32>,
    pub max_values: Option<u32>,
    pub disabled: bool,
}

#[derive(Debug, Clone)]
pub struct SelectMenuOption {
    pub label: String,
    pub value: String,
    pub description: Option<String>,
    pub emoji: Option<Emoji>,
    pub default: bool,
}

#[derive(Debug, Clone)]
pub struct TextInput {
    pub custom_id: String,
    pub style: u8,
    pub label: String,
    pub min_length: Option<u32>,
    pub max_length: Option<u32>,
    pub required: bool,
    pub value: Option<String>,
    pub placeholder: Option<String>,
}

} // verus!
