use discord_rs::builders::ActionRowBuilder;
use discord_rs::builders::ButtonBuilder;
use discord_rs::builders::EmbedBuilder;
use discord_rs::builders::InteractionResponseBuilder;
use discord_rs::builders::MessageBuilder;
use discord_rs::builders::SelectMenuBuilder;
use discord_rs::model::component::ButtonStyle;
use discord_rs::model::component::Component;
use discord_rs::model::embed::Embed;
use discord_rs::model::interaction::InteractionResponse;
use discord_rs::model::interaction::InteractionResponseType;
use discord_rs::model::message::AllowedMentionType;
use discord_rs::model::message::AllowedMentions;
use discord_rs::snowflake::Snowflake;

#[test]
fn embed_starts_empty() {
    let embed = EmbedBuilder::new().build();
    assert!(embed.title.is_none());
    assert!(embed.kind.is_none());
    assert!(embed.description.is_none());
    assert!(embed.url.is_none());
    assert!(embed.timestamp.is_none());
    assert!(embed.color.is_none());
    assert!(embed.footer.is_none());
    assert!(embed.image.is_none());
    assert!(embed.thumbnail.is_none());
    assert!(embed.video.is_none());
    assert!(embed.provider.is_none());
    assert!(embed.author.is_none());
    assert!(embed.fields.is_empty());
}

#[test]
fn embed_parts_are_set_one_by_one() {
    let embed = EmbedBuilder::new()
        .title("Ping-Pong Stats")
        .description("Latencies are looking good.")
        .url("https://example.org")
        .timestamp("2024-01-01T00:00:00Z")
        .color(0x00FF00)
        .footer("foot", Some("https://icon".to_string()))
        .image("https://image")
        .thumbnail("https://thumb")
        .author("me", None, Some("https://me".to_string()))
        .add_field("a", "1", true)
        .add_field("b", "2", false)
        .build();
    assert_eq!(embed.title.as_deref(), Some("Ping-Pong Stats"));
    assert_eq!(embed.description.as_deref(), Some("Latencies are looking good."));
    assert_eq!(embed.url.as_deref(), Some("https://example.org"));
    assert_eq!(embed.timestamp.as_deref(), Some("2024-01-01T00:00:00Z"));
    assert_eq!(embed.color, Some(65280));
    let footer = embed.footer.unwrap();
    assert_eq!(footer.text, "foot");
    assert_eq!(footer.icon_url.as_deref(), Some("https://icon"));
    assert!(footer.proxy_icon_url.is_none());
    let image = embed.image.unwrap();
    assert_eq!(image.url, "https://image");
    assert!(image.proxy_url.is_none() && image.height.is_none() && image.width.is_none());
    let thumbnail = embed.thumbnail.unwrap();
    assert_eq!(thumbnail.url, "https://thumb");
    assert!(thumbnail.proxy_url.is_none() && thumbnail.height.is_none());
    let author = embed.author.unwrap();
    assert_eq!(author.name, "me");
    assert!(author.url.is_none());
    assert_eq!(author.icon_url.as_deref(), Some("https://me"));
    assert!(author.proxy_icon_url.is_none());
    assert_eq!(embed.fields.len(), 2);
    assert_eq!((embed.fields[0].name.as_str(), embed.fields[0].value.as_str()), ("a", "1"));
    assert!(embed.fields[0].inline);
    assert_eq!((embed.fields[1].name.as_str(), embed.fields[1].value.as_str()), ("b", "2"));
    assert!(!embed.fields[1].inline);
    assert!(embed.kind.is_none() && embed.video.is_none() && embed.provider.is_none());
}

#[test]
fn embed_comes_from_its_builder() {
    let embed: Embed = EmbedBuilder::new().title("t").title("u").into();
    assert_eq!(embed.title.as_deref(), Some("u"));
}

#[test]
fn message_parts_are_left_out_until_set() {
    let b = MessageBuilder::new();
    assert!(b.content.is_none() && b.embeds.is_none() && b.allowed_mentions.is_none());
    assert!(b.message_reference.is_none() && b.tts.is_none());
    let b = b.content("Pong!").tts(true);
    assert_eq!(b.content.as_deref(), Some("Pong!"));
    assert_eq!(b.tts, Some(true));
    assert!(b.embeds.is_none());
}

#[test]
fn message_embeds_are_added_or_replaced() {
    let b = MessageBuilder::new()
        .add_embed(EmbedBuilder::new().title("one").build())
        .add_embed(EmbedBuilder::new().title("two").build());
    let embeds = b.embeds.as_ref().unwrap();
    assert_eq!(embeds.len(), 2);
    assert_eq!(embeds[0].title.as_deref(), Some("one"));
    assert_eq!(embeds[1].title.as_deref(), Some("two"));
    let b = b.embeds(vec![EmbedBuilder::new().title("three").build()]);
    assert_eq!(b.embeds.as_ref().unwrap().len(), 1);
    assert_eq!(b.embeds.unwrap()[0].title.as_deref(), Some("three"));
}

#[test]
fn everyone_is_allowed_once() {
    let b = MessageBuilder::new().mention_everyone();
    assert_eq!(b.allowed_mentions.as_ref().unwrap().parse, vec![AllowedMentionType::Everyone]);
    let b = b.mention_everyone();
    let mentions = b.allowed_mentions.as_ref().unwrap();
    assert_eq!(mentions.parse, vec![AllowedMentionType::Everyone]);
    assert!(mentions.roles.is_empty() && mentions.users.is_empty() && !mentions.replied_user);

    let given = AllowedMentions {
        parse: vec![AllowedMentionType::Users],
        roles: vec![Snowflake(1)],
        users: vec![Snowflake(2)],
        replied_user: true,
    };
    let b = MessageBuilder::new().allowed_mentions(given).mention_everyone();
    let mentions = b.allowed_mentions.unwrap();
    assert_eq!(mentions.parse, vec![AllowedMentionType::Users, AllowedMentionType::Everyone]);
    assert_eq!(mentions.roles, vec![Snowflake(1)]);
    assert_eq!(mentions.users, vec![Snowflake(2)]);
    assert!(mentions.replied_user);
}

#[test]
fn reply_names_the_message() {
    let b = MessageBuilder::new().reply(Snowflake(5), Some(Snowflake(6)), true);
    let reference = b.message_reference.unwrap();
    assert_eq!(reference.message_id, Some(Snowflake(5)));
    assert_eq!(reference.channel_id, Some(Snowflake(6)));
    assert_eq!(reference.guild_id, None);
    assert_eq!(reference.fail_if_not_exists, Some(true));
}

#[test]
fn interaction_reply_has_text() {
    let response = InteractionResponseBuilder::reply("hello").build();
    assert_eq!(response.kind, InteractionResponseType::ChannelMessageWithSource);
    let data = response.data.unwrap();
    assert_eq!(data.content.as_deref(), Some("hello"));
    assert!(data.embeds.is_none() && data.flags.is_none() && data.tts.is_none());
    assert!(data.components.is_none() && data.choices.is_none());
    assert!(data.custom_id.is_none() && data.title.is_none() && data.allowed_mentions.is_none());
}

#[test]
fn interaction_defer_has_no_data() {
    let response = InteractionResponseBuilder::defer().build();
    assert_eq!(response.kind, InteractionResponseType::DeferredChannelMessageWithSource);
    assert!(response.data.is_none());
    let response: InteractionResponse = InteractionResponseBuilder::new(InteractionResponseType::Pong).into();
    assert_eq!(response.kind, InteractionResponseType::Pong);
    assert!(response.data.is_none());
}

#[test]
fn interaction_steps_keep_what_was_set() {
    let mut builder = InteractionResponseBuilder::new(InteractionResponseType::UpdateMessage);
    builder.ephemeral();
    builder.content("a").add_embed(EmbedBuilder::new().title("e").build()).ephemeral();
    builder.content("b");
    let response = builder.build();
    assert_eq!(response.kind, InteractionResponseType::UpdateMessage);
    let data = response.data.unwrap();
    assert_eq!(data.content.as_deref(), Some("b"));
    assert_eq!(data.flags, Some(64));
    assert_eq!(data.embeds.as_ref().unwrap().len(), 1);
    assert_eq!(data.embeds.unwrap()[0].title.as_deref(), Some("e"));
}

#[test]
fn link_buttons_go_to_a_url() {
    let link = ButtonBuilder::new(ButtonStyle::Link, "https://example.org").build();
    assert_eq!(link.style, Some(ButtonStyle::Link));
    assert_eq!(link.url.as_deref(), Some("https://example.org"));
    assert!(link.custom_id.is_none());
    let plain = ButtonBuilder::new(ButtonStyle::Danger, "delete").label("Delete").disabled(true).build();
    assert_eq!(plain.style, Some(ButtonStyle::Danger));
    assert_eq!(plain.custom_id.as_deref(), Some("delete"));
    assert!(plain.url.is_none());
    assert_eq!(plain.label.as_deref(), Some("Delete"));
    assert!(plain.disabled);
    assert!(plain.emoji.is_none());
    let odd = ButtonBuilder::new(ButtonStyle::Unknown(5), "x").build();
    assert_eq!(odd.custom_id.as_deref(), Some("x"));
}

#[test]
fn menus_collect_options() {
    let menu = SelectMenuBuilder::new("pick")
        .add_option("One", "1")
        .add_option("Two", "2")
        .placeholder("Choose")
        .min_values(1)
        .max_values(2)
        .disabled(false)
        .build();
    assert_eq!(menu.custom_id, "pick");
    let options = menu.options.unwrap();
    assert_eq!(options.len(), 2);
    assert_eq!((options[0].label.as_str(), options[0].value.as_str()), ("One", "1"));
    assert_eq!((options[1].label.as_str(), options[1].value.as_str()), ("Two", "2"));
    assert!(options[0].description.is_none() && options[0].emoji.is_none() && !options[0].default);
    assert_eq!(menu.placeholder.as_deref(), Some("Choose"));
    assert_eq!((menu.min_values, menu.max_values), (Some(1), Some(2)));
    assert!(!menu.disabled);
    assert!(menu.channel_types.is_none());
    let empty = SelectMenuBuilder::new("none").build();
    assert_eq!(empty.options.unwrap().len(), 0);
}

#[test]
fn rows_hold_buttons_and_menus_in_order() {
    let row = ActionRowBuilder::new()
        .add_button(ButtonBuilder::new(ButtonStyle::Primary, "a"))
        .add_select_menu(SelectMenuBuilder::new("m"))
        .build();
    assert_eq!(row.components.len(), 2);
    assert!(matches!(&row.components[0], Component::Button(b) if b.custom_id.as_deref() == Some("a")));
    assert!(matches!(&row.components[1], Component::StringSelect(m) if m.custom_id == "m"));
    let component: Component = ActionRowBuilder::new().into();
    assert!(matches!(component, Component::ActionRow(r) if r.components.is_empty()));
}
