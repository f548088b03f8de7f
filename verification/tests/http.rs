use discord_rs::config::Config;
use discord_rs::error::DiscordError;
use discord_rs::http::client::body_kind;
use discord_rs::http::client::Body;
use discord_rs::http::client::BodyKind;
use discord_rs::http::client::Next;
use discord_rs::http::client::RequestKind;
use discord_rs::http::client::RestClient;
use discord_rs::http::client::BASE_URL;
use discord_rs::http::error::DiscordApiError;
use discord_rs::http::paths;
use discord_rs::http::ratelimit::Admission;
use discord_rs::http::ratelimit::BucketState;
use discord_rs::http::ratelimit::RateLimitHeaders;
use discord_rs::http::ratelimit::RateLimiter;
use discord_rs::http::routing::join_texts;
use discord_rs::http::routing::Method;
use discord_rs::http::routing::Route;
use discord_rs::snowflake::Snowflake;

fn headers(remaining: Option<&str>, limit: Option<&str>, reset_after_ms: Option<u64>) -> RateLimitHeaders {
    RateLimitHeaders {
        remaining: remaining.map(|s| s.to_string()),
        limit: limit.map(|s| s.to_string()),
        reset_after_ms,
    }
}

fn no_headers() -> RateLimitHeaders {
    headers(None, None, None)
}

fn client() -> RestClient {
    RestClient::new(Config::new("tok")).expect("a client")
}

#[test]
fn major_ids_are_kept_and_others_replaced() {
    let key = |path: &str| Route::new(Method::Get, path).bucket_key();
    assert_eq!(key("/guilds/5/members/77"), "GET:guilds/5/members/:id");
    assert_eq!(key("/webhooks/12/token/messages"), "GET:webhooks/12/token/messages");
    assert_eq!(key("/gateway/bot"), "GET:gateway/bot");
    assert_eq!(key(""), "GET:");
    assert_eq!(key("/"), "GET:");
    assert_eq!(key("//users//42//"), "GET:users/:id");
    assert_eq!(key("/channels"), "GET:channels");
    assert_eq!(key("/channels/"), "GET:channels/");
    assert_eq!(key("/channels//messages"), "GET:channels//messages");
    assert_eq!(key("/channels/guilds/5"), "GET:channels/guilds/:id");
    assert_eq!(key("/users/12a"), "GET:users/12a");
    assert_eq!(key("/users/@me"), "GET:users/@me");
    assert_eq!(key("123"), "GET::id");
}

#[test]
fn method_is_part_of_the_key() {
    let get = Route::new(Method::Get, "/channels/1/messages").bucket_key();
    let post = Route::new(Method::Post, "/channels/1/messages").bucket_key();
    assert_eq!(get, "GET:channels/1/messages");
    assert_eq!(post, "POST:channels/1/messages");
    assert_eq!(Method::Delete.as_str(), "DELETE");
    assert_eq!(Method::Patch.as_str(), "PATCH");
    assert_eq!(Method::Put.as_str(), "PUT");
    assert_eq!(Method::Head.as_str(), "HEAD");
    assert_eq!(Method::Options.as_str(), "OPTIONS");
    assert_eq!(Method::Trace.as_str(), "TRACE");
    assert_eq!(Method::Connect.as_str(), "CONNECT");
    assert_eq!(Route::new(Method::Get, "/a/1").to_text(), "/a/1");
}

#[test]
fn texts_are_joined() {
    let parts = vec!["a".to_string(), String::new(), "b".to_string()];
    assert_eq!(join_texts(&parts, '/'), "a//b");
    assert_eq!(join_texts(&Vec::new(), '/'), "");
    assert_eq!(join_texts(&vec!["x".to_string()], ','), "x");
}

#[test]
fn limiter_lets_one_request_through_at_a_time() {
    let mut limiter = RateLimiter::new();
    let route = Route::new(Method::Get, "/channels/1/messages/2");
    let same_bucket = Route::new(Method::Get, "/channels/1/messages/3");
    let first = limiter.enqueue(&route).unwrap();
    let second = limiter.enqueue(&same_bucket).unwrap();
    assert_eq!((first, second), (0, 1));

    assert_eq!(limiter.await_bucket(&same_bucket, second, 0), Admission::Queued);
    assert_eq!(limiter.await_bucket(&route, first, 0), Admission::Granted);
    assert_eq!(limiter.await_bucket(&route, first, 0), Admission::Unknown);
    assert_eq!(limiter.await_bucket(&same_bucket, second, 0), Admission::Queued);
    limiter.update(&route, &no_headers(), 5);
    assert_eq!(limiter.await_bucket(&same_bucket, second, 5), Admission::Granted);
}

#[test]
fn limiter_knows_nothing_of_a_ticket_that_never_queued() {
    let mut limiter = RateLimiter::new();
    let route = Route::new(Method::Get, "/users/1");
    assert_eq!(limiter.await_bucket(&route, 0, 0), Admission::Unknown);
    assert_eq!(limiter.bucket_state(&route), None);
    let ticket = limiter.enqueue(&route).unwrap();
    let other = Route::new(Method::Post, "/users/1");
    assert_eq!(limiter.await_bucket(&other, ticket, 0), Admission::Unknown);
    assert_eq!(
        limiter.bucket_state(&route),
        Some(BucketState { remaining: None, limit: None, reset_at: None })
    );
}

#[test]
fn limiter_learns_from_headers() {
    let mut limiter = RateLimiter::new();
    let route = Route::new(Method::Get, "/users/1");
    let t = limiter.enqueue(&route).unwrap();
    assert_eq!(limiter.await_bucket(&route, t, 100), Admission::Granted);
    limiter.update(&route, &headers(Some("2"), Some("5"), Some(1_500)), 200);
    assert_eq!(
        limiter.bucket_state(&route),
        Some(BucketState { remaining: Some(2), limit: Some(5), reset_at: Some(1_700) })
    );

    let t = limiter.enqueue(&route).unwrap();
    assert_eq!(limiter.await_bucket(&route, t, 300), Admission::Granted);
    assert_eq!(limiter.bucket_state(&route).unwrap().remaining, Some(1));
    limiter.update(&route, &headers(None, Some("9"), Some(9_000)), 400);
    assert_eq!(
        limiter.bucket_state(&route),
        Some(BucketState { remaining: Some(1), limit: Some(5), reset_at: Some(1_700) })
    );

    let t = limiter.enqueue(&route).unwrap();
    assert_eq!(limiter.await_bucket(&route, t, 500), Admission::Granted);
    limiter.update(&route, &headers(Some("x"), Some("9"), Some(9_000)), 600);
    assert_eq!(limiter.bucket_state(&route).unwrap().remaining, Some(0));
    assert_eq!(limiter.bucket_state(&route).unwrap().reset_at, Some(1_700));

    let t = limiter.enqueue(&route).unwrap();
    assert_eq!(limiter.await_bucket(&route, t, 700), Admission::Wait(1_000));
    assert_eq!(limiter.await_bucket(&route, t, 1_699), Admission::Wait(1));
    assert_eq!(limiter.await_bucket(&route, t, 1_700), Admission::Granted);
    assert_eq!(limiter.bucket_state(&route).unwrap().remaining, Some(0));
    limiter.update(&route, &headers(Some("4"), None, None), 1_800);
    assert_eq!(
        limiter.bucket_state(&route),
        Some(BucketState { remaining: Some(4), limit: None, reset_at: Some(1_700) })
    );
    limiter.update(&route, &headers(Some("-3"), Some("+7"), Some(u64::MAX)), 1_900);
    assert_eq!(
        limiter.bucket_state(&route),
        Some(BucketState { remaining: Some(-3), limit: Some(7), reset_at: Some(u64::MAX) })
    );
}

#[test]
fn update_of_an_unknown_bucket_changes_nothing() {
    let mut limiter = RateLimiter::new();
    let route = Route::new(Method::Get, "/users/1");
    limiter.update(&route, &headers(Some("0"), Some("1"), Some(10)), 0);
    assert_eq!(limiter.bucket_state(&route), None);
}

#[test]
fn global_gate_blocks_every_bucket() {
    let mut limiter = RateLimiter::new();
    let a = Route::new(Method::Get, "/users/1");
    let b = Route::new(Method::Post, "/channels/9/messages");
    let ta = limiter.enqueue(&a).unwrap();
    let tb = limiter.enqueue(&b).unwrap();
    limiter.handle_global_limit(750, 1_000);
    assert_eq!(limiter.await_bucket(&a, ta, 1_000), Admission::Wait(750));
    assert_eq!(limiter.await_bucket(&b, tb, 1_500), Admission::Wait(250));
    assert_eq!(limiter.await_bucket(&b, 99, 1_749), Admission::Wait(1));
    limiter.handle_global_limit(10, 1_100);
    assert_eq!(limiter.await_bucket(&a, ta, 1_700), Admission::Wait(50));
    assert_eq!(limiter.await_bucket(&a, ta, 1_750), Admission::Granted);
    assert_eq!(limiter.await_bucket(&b, tb, 1_750), Admission::Granted);
}

#[test]
fn rate_limited_request_is_tried_once_more_after_the_window() {
    let mut client = client();
    let request = client.get("/channels/1/messages");
    let ticket = client.enqueue(&request.route).unwrap();
    assert_eq!(client.acquire(&request.route, ticket, 0), Admission::Granted);
    let next = client.handle_response(
        &request.route,
        request.kind,
        429,
        &headers(Some("0"), Some("5"), Some(500)),
        Body::RateLimit { global: false, retry_after_ms: 500 },
        10,
    );
    assert!(matches!(next, Next::Retry(0)));

    let ticket = client.enqueue(&request.route).unwrap();
    assert_eq!(client.acquire(&request.route, ticket, 10), Admission::Wait(500));
    assert_eq!(client.acquire(&request.route, ticket, 509), Admission::Wait(1));
    assert_eq!(client.acquire(&request.route, ticket, 510), Admission::Granted);
    let value = serde_json::Value::from(7);
    let next = client.handle_response(
        &request.route,
        request.kind,
        200,
        &headers(Some("4"), Some("5"), Some(1_000)),
        Body::Json(value),
        520,
    );
    assert!(matches!(next, Next::Done(Some(v)) if v == serde_json::Value::from(7)));
}

#[test]
fn global_limit_pauses_an_unrelated_bucket() {
    let mut client = client();
    let limited = client.get("/users/1");
    let other = client.post("/channels/2/messages", serde_json::Value::Null);
    let t1 = client.enqueue(&limited.route).unwrap();
    let t2 = client.enqueue(&other.route).unwrap();
    assert_eq!(client.acquire(&limited.route, t1, 0), Admission::Granted);
    let next = client.handle_response(
        &limited.route,
        limited.kind,
        429,
        &no_headers(),
        Body::RateLimit { global: true, retry_after_ms: 2_000 },
        100,
    );
    assert!(matches!(next, Next::Retry(0)));
    assert_eq!(client.acquire(&other.route, t2, 100), Admission::Wait(2_000));
    assert_eq!(client.acquire(&other.route, t2, 2_099), Admission::Wait(1));
    assert_eq!(client.acquire(&other.route, t2, 2_100), Admission::Granted);
}

#[test]
fn rate_limit_without_note_is_not_global() {
    let mut client = client();
    let request = client.delete("/channels/1");
    let t = client.enqueue(&request.route).unwrap();
    client.acquire(&request.route, t, 0);
    let next = client.handle_response(&request.route, request.kind, 429, &no_headers(), Body::Empty, 0);
    assert!(matches!(next, Next::Retry(0)));
    let t = client.enqueue(&request.route).unwrap();
    assert_eq!(client.acquire(&request.route, t, 0), Admission::Granted);
}

#[test]
fn multipart_waits_or_fails_on_a_rate_limit() {
    let mut client = client();
    let replayable = client.request_multipart_retryable(Method::Post, "/channels/1/messages", None);
    assert_eq!(replayable.kind, RequestKind::Multipart { replayable: true });
    let next = client.handle_response(
        &replayable.route,
        replayable.kind,
        429,
        &no_headers(),
        Body::RateLimit { global: false, retry_after_ms: 300 },
        0,
    );
    assert!(matches!(next, Next::Retry(300)));
    let next = client.handle_response(
        &replayable.route,
        replayable.kind,
        429,
        &no_headers(),
        Body::RateLimit { global: true, retry_after_ms: 300 },
        0,
    );
    assert!(matches!(next, Next::Retry(0)));

    let single = client.request_multipart(Method::Post, "/channels/1/messages", Some("why"));
    assert_eq!(single.kind, RequestKind::Multipart { replayable: false });
    assert_eq!(single.headers.len(), 3);
    let next = client.handle_response(
        &single.route,
        single.kind,
        429,
        &no_headers(),
        Body::RateLimit { global: false, retry_after_ms: 300 },
        1_000,
    );
    match next {
        Next::Failed(e) => {
            assert!(matches!(e, DiscordError::RateLimit));
            assert_eq!(e.to_text(), "Rate limit exceeded");
        }
        _ => panic!("the request went on"),
    }
}

#[test]
fn requests_carry_the_fixed_headers() {
    let client = client();
    let request = client.request(Method::Put, "/guilds/1/bans/2", None, Some("foo bar?"));
    assert_eq!(request.url, "https://discord.com/api/v10/guilds/1/bans/2");
    assert_eq!(BASE_URL, "https://discord.com/api/v10");
    assert_eq!(request.route.method, Method::Put);
    assert_eq!(request.route.path, "/guilds/1/bans/2");
    assert_eq!(request.kind, RequestKind::Plain);
    assert!(request.body.is_none());
    let shown: Vec<(&str, &str)> =
        request.headers.iter().map(|h| (h.name.as_str(), h.value.as_str())).collect();
    assert_eq!(
        shown,
        vec![
            ("Authorization", "Bot tok"),
            ("User-Agent", "DiscordBot (discord.rs, 0.1.0)"),
            ("X-Audit-Log-Reason", "foo%20bar%3F"),
        ]
    );
}

#[test]
fn reason_is_percent_encoded_byte_by_byte() {
    let client = client();
    let request = client.request(Method::Delete, "/x", None, Some("h\u{e9}\nAz09-_.~%"));
    assert_eq!(request.headers[2].value, "h%C3%A9%0AAz09%2D%5F%2E%7E%25");
    let request = client.request(Method::Delete, "/x", None, Some(""));
    assert_eq!(request.headers[2].value, "");
    let request = client.request(Method::Delete, "/x", None, None);
    assert_eq!(request.headers.len(), 2);
}

#[test]
fn helper_requests_are_plain() {
    let client = client();
    let get = client.get("/users/1");
    assert_eq!(get.route.method, Method::Get);
    assert!(get.body.is_none());
    let post = client.post("/a", serde_json::Value::from("x"));
    assert_eq!(post.route.method, Method::Post);
    assert_eq!(post.body, Some(serde_json::Value::from("x")));
    let patch = client.patch("/a", serde_json::Value::from(true));
    assert_eq!(patch.route.method, Method::Patch);
    assert_eq!(patch.body, Some(serde_json::Value::from(true)));
    let delete = client.delete("/a");
    assert_eq!(delete.route.method, Method::Delete);
    let gateway = client.get_gateway_bot();
    assert_eq!(gateway.url, "https://discord.com/api/v10/gateway/bot");
    assert_eq!(gateway.route.bucket_key(), "GET:gateway/bot");
}

#[test]
fn token_must_fit_in_a_header() {
    match RestClient::new(Config::new("a\nb")) {
        Err(e) => {
            assert!(matches!(e, DiscordError::Validation(_)));
            assert_eq!(e.to_text(), "Validation error: failed to parse header value");
        }
        Ok(_) => panic!("the token was taken"),
    }
    assert!(RestClient::new(Config::new("a\u{7f}")).is_err());
    assert!(RestClient::new(Config::new("a\tb\u{e9}")).is_ok());
    assert!(RestClient::new(Config::new("")).is_ok());
}

#[test]
fn status_decides_how_the_body_is_read() {
    assert_eq!(body_kind(200), BodyKind::Json);
    assert_eq!(body_kind(201), BodyKind::Json);
    assert_eq!(body_kind(204), BodyKind::Empty);
    assert_eq!(body_kind(299), BodyKind::Json);
    assert_eq!(body_kind(300), BodyKind::ApiError);
    assert_eq!(body_kind(199), BodyKind::ApiError);
    assert_eq!(body_kind(429), BodyKind::RateLimit);
    assert_eq!(body_kind(404), BodyKind::ApiError);
    assert_eq!(body_kind(500), BodyKind::ApiError);
}

fn respond(status: u16, body: Body) -> Next {
    let mut client = client();
    let request = client.get("/users/1");
    client.handle_response(&request.route, request.kind, status, &no_headers(), body, 0)
}

fn failure(next: Next) -> String {
    match next {
        Next::Failed(e) => e.to_text(),
        _ => panic!("the request did not fail"),
    }
}

#[test]
fn success_returns_the_value_or_nothing() {
    assert!(matches!(respond(204, Body::Empty), Next::Done(None)));
    assert!(matches!(respond(204, Body::Json(serde_json::Value::from(1))), Next::Done(None)));
    assert!(matches!(respond(200, Body::Json(serde_json::Value::from(1))), Next::Done(Some(_))));
    assert_eq!(
        failure(respond(200, Body::Unreadable("EOF while parsing".to_string()))),
        "Serialization error: EOF while parsing"
    );
    assert_eq!(failure(respond(200, Body::Empty)), "Serialization error: response body is not JSON");
}

#[test]
fn failure_shows_the_platform_error_or_the_status() {
    let plain = DiscordApiError { code: 50001, message: "Missing Access".to_string(), errors: None };
    assert_eq!(plain.to_text(), "Discord API Error 50001: Missing Access");
    assert_eq!(
        failure(respond(403, Body::ApiError(plain))),
        "HTTP error: Discord API Error 50001: Missing Access"
    );
    let detailed = DiscordApiError {
        code: 0,
        message: "Bad".to_string(),
        errors: Some("Object {}".to_string()),
    };
    assert_eq!(
        failure(respond(400, Body::ApiError(detailed))),
        "HTTP error: Discord API Error 0: Bad | Details: Object {}"
    );
    assert_eq!(
        failure(respond(404, Body::Empty)),
        "HTTP error: Request failed with status: 404 Not Found"
    );
    assert_eq!(
        failure(respond(500, Body::Unreadable("x".to_string()))),
        "HTTP error: Request failed with status: 500 Internal Server Error"
    );
    assert_eq!(
        failure(respond(599, Body::Empty)),
        "HTTP error: Request failed with status: 599 <unknown status code>"
    );
    assert_eq!(
        failure(respond(7, Body::Empty)),
        "HTTP error: Request failed with status: 7 <unknown status code>"
    );
}

#[test]
fn paths_name_their_ids() {
    assert_eq!(paths::user(Snowflake(42)), "/users/42");
    assert_eq!(paths::guild(Snowflake(0)), "/guilds/0");
    assert_eq!(paths::channel(Snowflake(u64::MAX)), "/channels/18446744073709551615");
    assert_eq!(paths::guild_member(Snowflake(1), Snowflake(2)), "/guilds/1/members/2");
    assert_eq!(paths::channel_messages(Snowflake(10)), "/channels/10/messages");
    assert_eq!(paths::interaction_callback(Snowflake(3), "tok"), "/interactions/3/tok/callback");
    assert_eq!(paths::webhook_messages(Snowflake(4), "tok"), "/webhooks/4/tok/messages");
    assert_eq!(
        paths::webhook_original(Snowflake(4), "tok"),
        "/webhooks/4/tok/messages/@original"
    );
}

#[test]
fn application_id_is_asked_for_by_purpose() {
    let mut config = Config::new("t");
    match paths::application_id(&config, "follow-up") {
        Err(e) => {
            assert!(matches!(e, DiscordError::Configuration(_)));
            assert_eq!(e.to_text(), "Configuration error: application_id required for follow-up");
        }
        Ok(_) => panic!("an identifier out of nothing"),
    }
    config.application_id = Some(Snowflake(9));
    assert_eq!(paths::application_id(&config, "follow-up").unwrap(), Snowflake(9));
}

#[test]
fn methods_beyond_the_nine_go_by_their_name() {
    let purge = Method::Extension("PURGE".to_string());
    assert_eq!(purge.as_str(), "PURGE");
    let route = Route::new(purge.clone(), "/channels/5/messages/6");
    assert_eq!(route.bucket_key(), "PURGE:channels/5/messages/:id");
    let client = client();
    let request = client.request(purge.clone(), "/x", None, None);
    assert_eq!(request.route.method, purge);
    assert_ne!(request.route.method, Method::Get);
}

#[test]
fn withdrawn_ticket_lets_the_next_through() {
    let mut limiter = RateLimiter::new();
    let route = Route::new(Method::Get, "/users/1");
    let first = limiter.enqueue(&route).unwrap();
    let second = limiter.enqueue(&route).unwrap();
    let third = limiter.enqueue(&route).unwrap();
    assert_eq!(limiter.await_bucket(&route, second, 0), Admission::Queued);
    limiter.withdraw(&route, first);
    assert_eq!(limiter.await_bucket(&route, first, 0), Admission::Unknown);
    assert_eq!(limiter.await_bucket(&route, third, 0), Admission::Queued);
    limiter.withdraw(&route, 99);
    limiter.withdraw(&Route::new(Method::Post, "/nowhere"), second);
    assert_eq!(limiter.await_bucket(&route, second, 0), Admission::Granted);
    limiter.withdraw(&route, second);
    assert_eq!(limiter.await_bucket(&route, third, 0), Admission::Queued);
    limiter.update(&route, &no_headers(), 0);
    assert_eq!(limiter.await_bucket(&route, third, 0), Admission::Granted);
}

#[test]
fn client_withdraws_and_releases() {
    let mut client = client();
    let request = client.get("/users/1");
    let first = client.enqueue(&request.route).unwrap();
    let second = client.enqueue(&request.route).unwrap();
    client.withdraw(&request.route, first);
    assert_eq!(client.acquire(&request.route, second, 0), Admission::Granted);
    let third = client.enqueue(&request.route).unwrap();
    assert_eq!(client.acquire(&request.route, third, 0), Admission::Queued);
    client.release(&request.route, 0);
    assert_eq!(client.acquire(&request.route, third, 0), Admission::Granted);
}
