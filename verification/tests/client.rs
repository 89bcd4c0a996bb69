use discordlist::client::DiscordlistClient;
use discordlist::endpoint::{
    bot_path_string, command_path_string, decimal_string, endpoint, endpoint_string,
    guilds_path_string, on_search_host, user_path_string, with_guild_count, MAX_PART_CHARS,
    MAX_URL_CHARS,
};
use discordlist::http::{check_status, ClientError, Method, Payload, Request};
use discordlist::model::Command;
use discordlist::search::SearchOptions;
use std::time::Duration;

fn client(token: &str, bot_id: u64) -> DiscordlistClient {
    match DiscordlistClient::new(token.to_string(), bot_id, Duration::from_secs(5)) {
        Ok(client) => client,
        Err(error) => panic!("no transport: {:?}", error),
    }
}

fn sample_command(id: u64) -> Command {
    Command {
        id,
        command_name: "ping".to_string(),
        description: "Answers with pong".to_string(),
        syntax: "!ping".to_string(),
        categories: vec!["utility".to_string(), "fun".to_string()],
    }
}

#[test]
fn decimal_numerals() {
    assert_eq!(decimal_string(0), "0");
    assert_eq!(decimal_string(7), "7");
    assert_eq!(decimal_string(10), "10");
    assert_eq!(decimal_string(42), "42");
    assert_eq!(decimal_string(1234567890), "1234567890");
    assert_eq!(decimal_string(u64::MAX), "18446744073709551615");
    assert_eq!(decimal_string(u64::MAX), u64::MAX.to_string());
}

#[test]
fn paths_follow_the_templates() {
    assert_eq!(guilds_path_string(123), "/bots/123/guilds");
    assert_eq!(command_path_string(123, 9), "/bots/123/commands/9");
    assert_eq!(bot_path_string(456), "/bots/456");
    assert_eq!(user_path_string(789), "/users/789");
}

#[test]
fn endpoint_text_is_base_then_path() {
    assert_eq!(endpoint_string("/bots/1"), "https://api.discordlist.gg/v0/bots/1");
    assert_eq!(endpoint_string(""), "https://api.discordlist.gg/v0");
}

#[test]
fn endpoint_is_parsed() {
    assert_eq!(
        endpoint("/bots/1"),
        Some("https://api.discordlist.gg/v0/bots/1".to_string())
    );
    assert_eq!(
        endpoint("/bots/a b"),
        Some("https://api.discordlist.gg/v0/bots/a%20b".to_string())
    );
    assert_eq!(
        endpoint("?a=b#c"),
        Some("https://api.discordlist.gg/v0?a=b#c".to_string())
    );
}

#[test]
fn guild_count_is_a_query_pair() {
    assert_eq!(
        with_guild_count(endpoint("/bots/1/guilds"), 42),
        Some("https://api.discordlist.gg/v0/bots/1/guilds?count=42".to_string())
    );
    assert_eq!(with_guild_count(None, 42), None);
    assert_eq!(with_guild_count(Some("not a url".to_string()), 42), None);
}

#[test]
fn search_host_replaces_api_host() {
    assert_eq!(
        on_search_host(endpoint("/bots/search")),
        Some("https://search.discordlist.gg/v0/bots/search".to_string())
    );
    assert_eq!(on_search_host(None), None);
    assert_eq!(on_search_host(Some("mailto:someone@example.org".to_string())), None);
}

#[test]
fn client_keeps_token_and_bot_id() {
    let c = client("secret", 99);
    assert_eq!(c.get_token(), "secret");
    assert_eq!(c.get_bot_id(), 99);
    assert_eq!(c.get_timeout(), Duration::from_secs(5));
}

#[test]
fn user_agent_names_the_library() {
    assert_eq!(DiscordlistClient::USER_AGENT, "discordlist-rs/0.1.0");
}

#[test]
fn set_guild_count_request() {
    let c = client("secret", 1234);
    let expected = Request {
        method: Method::Put,
        url: "https://api.discordlist.gg/v0/bots/1234/guilds?count=42".to_string(),
        bearer: "secret".to_string(),
        payload: Payload::Empty,
    };
    let request = c.set_guild_count(42);
    assert_eq!(request, Some(expected));
    let request = match request {
        Some(request) => request,
        None => unreachable!(),
    };
    assert_eq!(request.method.as_str(), "PUT");
    assert_eq!(request.authorization(), "Bearer secret");
    assert!(!request.has_body());
}

#[test]
fn set_guild_count_outcome_follows_status() {
    assert_eq!(check_status(200), Ok(()));
    assert_eq!(check_status(204), Ok(()));
    assert_eq!(check_status(299), Ok(()));
    assert_eq!(check_status(400), Err(ClientError::Api { status: 400 }));
    assert_eq!(check_status(401), Err(ClientError::Api { status: 401 }));
    assert_eq!(check_status(404), Err(ClientError::Api { status: 404 }));
    assert_eq!(check_status(500), Err(ClientError::Api { status: 500 }));
    assert_eq!(check_status(599), Err(ClientError::Api { status: 599 }));
}

#[test]
fn statuses_outside_the_success_range_are_errors() {
    assert_eq!(check_status(199), Err(ClientError::Api { status: 199 }));
    assert_eq!(check_status(300), Err(ClientError::Api { status: 300 }));
    assert_eq!(check_status(304), Err(ClientError::Api { status: 304 }));
    assert_eq!(check_status(0), Err(ClientError::Api { status: 0 }));
    assert_eq!(check_status(u16::MAX), Err(ClientError::Api { status: u16::MAX }));
}

#[test]
fn add_bot_command_request() {
    let c = client("secret", 1234);
    let expected = Request {
        method: Method::Post,
        url: "https://api.discordlist.gg/v0/bots/1234/commands/77".to_string(),
        bearer: "secret".to_string(),
        payload: Payload::Command(sample_command(77)),
    };
    let request = c.add_bot_command(sample_command(77));
    assert_eq!(request, Some(expected));
    assert_eq!(request.map(|r| r.has_body()), Some(true));
}

#[test]
fn get_bot_request() {
    let c = client("secret", 1234);
    let expected = Request {
        method: Method::Post,
        url: "https://api.discordlist.gg/v0/bots/5".to_string(),
        bearer: "secret".to_string(),
        payload: Payload::Empty,
    };
    assert_eq!(c.get_bot(5), Some(expected));
}

#[test]
fn get_user_request() {
    let c = client("secret", 1234);
    let expected = Request {
        method: Method::Post,
        url: "https://api.discordlist.gg/v0/users/18446744073709551615".to_string(),
        bearer: "secret".to_string(),
        payload: Payload::Empty,
    };
    let request = c.get_user(u64::MAX);
    assert_eq!(request.as_ref().map(|r| r.method.as_str()), Some("POST"));
    assert_eq!(request, Some(expected));
}

#[test]
fn search_without_query_sends_wildcard() {
    let c = client("secret", 1234);
    let options = SearchOptions::default();
    let untouched = options.clone();
    let expected = Request {
        method: Method::Post,
        url: "https://search.discordlist.gg/v0/bots/search".to_string(),
        bearer: "secret".to_string(),
        payload: Payload::Search(SearchOptions::default().query("*".to_string())),
    };
    assert_eq!(c.search(options.clone()), Some(expected));
    assert_eq!(options, untouched);
    assert_eq!(options.query, None);
}

#[test]
fn search_with_query_sends_it_unmodified() {
    let c = client("secret", 1234);
    let options = SearchOptions::default().query("music bot".to_string()).limit(5);
    let request = c.search(options.clone());
    assert_eq!(
        request.map(|r| r.payload),
        Some(Payload::Search(options))
    );
    let empty = SearchOptions::default().query(String::new());
    assert_eq!(
        c.search(empty.clone()).map(|r| r.payload),
        Some(Payload::Search(empty))
    );
}

#[test]
fn build_request_carries_the_token() {
    let c = client("tok", 1);
    let request = c.build_request(Method::Post, Some("https://example.org/".to_string()));
    assert_eq!(
        request,
        Some(Request {
            method: Method::Post,
            url: "https://example.org/".to_string(),
            bearer: "tok".to_string(),
            payload: Payload::Empty,
        })
    );
    assert_eq!(c.build_request(Method::Put, None), None);
}

#[test]
fn failed_transport_gives_transport_init() {
    let failed = reqwest::Client::builder().user_agent("bad\nagent").build();
    assert!(failed.is_err());
    let outcome =
        DiscordlistClient::with_transport("secret".to_string(), 1, Duration::from_secs(5), failed);
    assert!(matches!(outcome, Err(ClientError::TransportInit)));
}

#[test]
fn working_transport_gives_the_client() {
    let transport = reqwest::Client::builder().build();
    assert!(transport.is_ok());
    let outcome = DiscordlistClient::with_transport(
        "secret".to_string(),
        7,
        Duration::from_millis(250),
        transport,
    );
    match outcome {
        Ok(c) => {
            assert_eq!(c.get_token(), "secret");
            assert_eq!(c.get_bot_id(), 7);
            assert_eq!(c.get_timeout(), Duration::from_millis(250));
        }
        Err(error) => panic!("no client: {:?}", error),
    }
}

fn address_of(chars: usize) -> String {
    let prefix = "https://api.discordlist.gg/";
    let mut address = String::from(prefix);
    address.push_str(&"a".repeat(chars - prefix.len()));
    address
}

#[test]
fn address_bounds() {
    assert_eq!(MAX_URL_CHARS, 1_048_575);
    assert_eq!(MAX_PART_CHARS, 255);
}

#[test]
fn longest_address_is_changed() {
    let address = address_of(MAX_URL_CHARS);
    assert_eq!(address.chars().count(), MAX_URL_CHARS);
    let mut with_count = address.clone();
    with_count.push_str("?count=18446744073709551615");
    assert_eq!(with_guild_count(Some(address.clone()), u64::MAX), Some(with_count));
    let moved = on_search_host(Some(address.clone()));
    assert_eq!(
        moved.map(|m| m.len()),
        Some(address.len() - "api".len() + "search".len())
    );
}

#[test]
fn longer_address_is_refused() {
    let address = address_of(MAX_URL_CHARS + 1);
    assert_eq!(with_guild_count(Some(address.clone()), 42), None);
    assert_eq!(on_search_host(Some(address)), None);
}

#[test]
fn address_length_counts_characters() {
    let prefix = "https://api.discordlist.gg/";
    let mut address = String::from(prefix);
    address.push_str(&"\u{e9}".repeat(MAX_URL_CHARS - prefix.len()));
    assert!(address.len() > MAX_URL_CHARS);
    assert!(with_guild_count(Some(address.clone()), 1).is_some());
    address.push('a');
    assert_eq!(with_guild_count(Some(address), 1), None);
}

#[test]
fn transport_is_set_up_with_user_agent_and_timeout() {
    assert_eq!(
        DiscordlistClient::transport_settings(Duration::from_secs(5)),
        ("discordlist-rs/0.1.0", Duration::from_secs(5))
    );
    assert_eq!(
        DiscordlistClient::transport_settings(Duration::from_millis(1)),
        (DiscordlistClient::USER_AGENT, Duration::from_millis(1))
    );
}
