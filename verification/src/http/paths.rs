//! The paths of the REST interface that the library asks for.

use crate::config::Config;
use crate::error::DiscordError;
use crate::error::ErrorView;
use crate::snowflake::Snowflake;
use crate::text::decimal_digits;
use crate::text::push_decimal;
use vstd::prelude::*;
use vstd::string::StringExecFns;

verus! {

/// `prefix`, followed by the decimal notation of `id`.
fn with_id(prefix: &str, id: Snowflake) -> (path: String)
    ensures
        path@ == prefix@ + decimal_digits(id.0 as nat),
{
    let mut path = String::from_str(prefix);
    push_decimal(&mut path, id.0);
    path
}

/// The path of the user `id`.
pub fn user(id: Snowflake) -> (path: String)
    ensures
        path@ == "/users/"@ + decimal_digits(id.0 as nat),
{
    with_id("/users/", id)
}

/// The path of the guild `id`.
pub fn guild(id: Snowflake) -> (path: String)
    ensures
        path@ == "/guilds/"@ + decimal_digits(id.0 as nat),
{
    with_id("/guilds/", id)
}

/// The path of the channel `id`.
pub fn channel(id: Snowflake) -> (path: String)
    ensures
        path@ == "/channels/"@ + decimal_digits(id.0 as nat),
{
    with_id("/channels/", id)
}

/// The path of the member `user_id` of the guild `guild_id`.
pub fn guild_member(guild_id: Snowflake, user_id: Snowflake) -> (path: String)
    ensures
        path@ == "/guilds/"@ + decimal_digits(guild_id.0 as nat) + "/members/"@ + decimal_digits(
            user_id.0 as nat,
        ),
{
    let mut path = with_id("/guilds/", guild_id);
    path.append("/members/");
    push_decimal(&mut path, user_id.0);
    path
}

/// The path of the messages of the channel `id`.
pub fn channel_messages(id: Snowflake) -> (path: String)
    ensures
        path@ == "/channels/"@ + decimal_digits(id.0 as nat) + "/messages"@,
{
    let mut path = with_id("/channels/", id);
    path.append("/messages");
    path
}

/// The path under which an interaction is answered.
pub fn interaction_callback(id: Snowflake, token: &str) -> (path: String)
    ensures
        path@ == "/interactions/"@ + decimal_digits(id.0 as nat) + "/"@ + token@ + "/callback"@,
{
    let mut path = with_id("/interactions/", id);
    path.append("/");
    path.append(token);
    path.append("/callback");
    path
}

/// The path under which messages follow up on an interaction.
pub fn webhook_messages(application_id: Snowflake, token: &str) -> (path: String)
    ensures
        path@ == "/webhooks/"@ + decimal_digits(application_id.0 as nat) + "/"@ + token@
            + "/messages"@,
{
    let mut path = with_id("/webhooks/", application_id);
    path.append("/");
    path.append(token);
    path.append("/messages");
    path
}

/// The path of the first answer to an interaction.
pub fn webhook_original(application_id: Snowflake, token: &str) -> (path: String)
    ensures
        path@ == "/webhooks/"@ + decimal_digits(application_id.0 as nat) + "/"@ + token@
            + "/messages/@original"@,
{
    let mut path = with_id("/webhooks/", application_id);
    path.append("/");
    path.append(token);
    path.append("/messages/@original");
    path
}

/// The identifier of the application, or the error that says for what
/// it is needed.
pub fn application_id(config: &Config, purpose: &str) -> (r: Result<Snowflake, DiscordError>)
    ensures
        match config.application_id {
            Some(id) => r == Ok::<Snowflake, DiscordError>(id),
            None => r is Err && r->Err_0@ == ErrorView::Configuration(
                "application_id required for "@ + purpose@,
            ),
        },
{
    match config.application_id {
        Some(id) => Ok(id),
        None => {
            let mut why = String::from_str("application_id required for ");
            why.append(purpose);
            Err(DiscordError::Configuration(why))
        },
    }
}

} // verus!
