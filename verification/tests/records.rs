use discordlist::http::{check_status, ClientError, Payload, Request, Response};
use discordlist::http::Method;
use discordlist::model::{Bot, Command, SearchHit, SearchResults, TagDistribution, User};
use discordlist::search::SearchOptions;
use discordlist::wire::{
    read_bool, read_number, read_optional_text, read_text, read_text_list, Json,
};

fn member(name: &str, value: Json) -> (String, Json) {
    (name.to_string(), value)
}

fn text(s: &str) -> Json {
    Json::Text(s.to_string())
}

fn texts(items: &[&str]) -> Json {
    Json::List(items.iter().map(|s| text(s)).collect())
}

fn strings(items: &[&str]) -> Vec<String> {
    items.iter().map(|s| s.to_string()).collect()
}

fn from_serde(value: &serde_json::Value) -> Json {
    match value {
        serde_json::Value::Null => Json::Null,
        serde_json::Value::Bool(b) => Json::Bool(*b),
        serde_json::Value::Number(n) => match n.as_u64() {
            Some(n) => Json::Number(n),
            None => Json::OtherNumber,
        },
        serde_json::Value::String(s) => Json::Text(s.clone()),
        serde_json::Value::Array(items) => Json::List(items.iter().map(from_serde).collect()),
        serde_json::Value::Object(members) => Json::Object(
            members.iter().map(|(name, value)| (name.clone(), from_serde(value))).collect(),
        ),
    }
}

fn parse(source: &str) -> Json {
    match serde_json::from_str::<serde_json::Value>(source) {
        Ok(value) => from_serde(&value),
        Err(error) => panic!("no JSON: {}", error),
    }
}

fn sample_command(id: u64) -> Command {
    Command {
        id,
        command_name: "ping".to_string(),
        description: "Answers with pong".to_string(),
        syntax: "!ping".to_string(),
        categories: strings(&["utility", "fun"]),
    }
}

fn bare_user() -> User {
    User {
        avatar: None,
        banner: None,
        bio: None,
        bots: Vec::new(),
        claps: 0,
        co_owned_bots: Vec::new(),
        co_owned_guilds: Vec::new(),
        created_on: "2023-01-01".to_string(),
        discriminator: 0,
        display_name: None,
        flags: 0,
        guilds: Vec::new(),
        id: "42".to_string(),
        packs: Vec::new(),
        slug: None,
        username: "someone".to_string(),
    }
}

fn full_user() -> User {
    User {
        avatar: Some("a.png".to_string()),
        banner: Some("b.png".to_string()),
        bio: Some(String::new()),
        bots: strings(&["1", "2"]),
        claps: 9,
        co_owned_bots: strings(&["3"]),
        co_owned_guilds: strings(&["4", "5"]),
        created_on: "2023-01-01".to_string(),
        discriminator: 1234,
        display_name: Some("Some One".to_string()),
        flags: u64::MAX,
        guilds: strings(&["6"]),
        id: "42".to_string(),
        packs: strings(&["7"]),
        slug: Some("someone".to_string()),
        username: "someone".to_string(),
    }
}

fn sample_bot() -> Bot {
    Bot {
        flags: 3,
        bot_id: Some("100".to_string()),
        features: 0x1ff,
        id: "100".to_string(),
        username: "helper".to_string(),
        avatar: "h.png".to_string(),
        discriminator: 7,
        prefix: "!".to_string(),
        is_packable: true,
        is_hidden: false,
        is_forced_into_hiding: false,
        invite_url: "https://example.org/invite".to_string(),
        webhook_url: None,
        webhook_auth: Some("auth".to_string()),
        website_url: "https://example.org".to_string(),
        repo_url: String::new(),
        twitter_url: String::new(),
        instagram_url: String::new(),
        support_server_url: "https://example.org/support".to_string(),
        slug: "helper".to_string(),
        tags: strings(&["utility", "music"]),
        created_on: "2022-05-05".to_string(),
        owner_id: "42".to_string(),
        co_owner_ids: strings(&["43"]),
        brief_description: "Helps".to_string(),
        long_description: "Helps a lot".to_string(),
        guild_count: 1000,
        votes: 12,
        all_time_votes: 345,
    }
}

fn sample_hit(id: &str) -> SearchHit {
    SearchHit {
        avatar: "h.png".to_string(),
        brief_description: "Helps".to_string(),
        co_owner_ids: strings(&["43"]),
        created_on: "2022-05-05".to_string(),
        discriminator: 7,
        features: "3".to_string(),
        flags: "0".to_string(),
        guild_count: 1000,
        id: id.to_string(),
        invite_url: "https://example.org/invite".to_string(),
        owner_id: "42".to_string(),
        prefix: "!".to_string(),
        tags: "utility,music".to_string(),
        username: "helper".to_string(),
        votes: "12".to_string(),
    }
}

fn sample_results() -> SearchResults {
    SearchResults {
        hits: vec![sample_hit("100"), sample_hit("101")],
        limit: 21,
        nb_hits: 2,
        offset: 0,
        query: "*".to_string(),
        tag_distribution: TagDistribution::new()
            .insert("utility".to_string(), 2)
            .insert("music".to_string(), 1),
    }
}

fn ok<T>(outcome: Result<T, ClientError>) -> T {
    match outcome {
        Ok(value) => value,
        Err(error) => panic!("not read: {:?}", error),
    }
}

#[test]
fn lookup_finds_the_first_member_of_a_name() {
    let object = Json::Object(vec![
        member("a", Json::Number(1)),
        member("b", Json::Bool(true)),
        member("a", Json::Number(2)),
    ]);
    assert_eq!(object.get("a"), Some(&Json::Number(1)));
    assert_eq!(object.get("b"), Some(&Json::Bool(true)));
    assert_eq!(object.get("c"), None);
    assert_eq!(object.get(""), None);
    assert_eq!(Json::Null.get("a"), None);
    assert_eq!(Json::List(vec![Json::Number(1)]).get("a"), None);
    assert_eq!(Json::Object(Vec::new()).get("a"), None);
}

#[test]
fn readers_accept_one_kind_each() {
    assert_eq!(read_text(Some(&text("x"))), Some("x".to_string()));
    assert_eq!(read_text(Some(&Json::Null)), None);
    assert_eq!(read_text(None), None);
    assert_eq!(read_number(Some(&Json::Number(5))), Some(5));
    assert_eq!(read_number(Some(&Json::OtherNumber)), None);
    assert_eq!(read_number(Some(&text("5"))), None);
    assert_eq!(read_number(None), None);
    assert_eq!(read_bool(Some(&Json::Bool(false))), Some(false));
    assert_eq!(read_bool(Some(&Json::Number(0))), None);
    assert_eq!(read_bool(None), None);
    assert_eq!(read_optional_text(None), Some(None));
    assert_eq!(read_optional_text(Some(&Json::Null)), Some(None));
    assert_eq!(read_optional_text(Some(&text("x"))), Some(Some("x".to_string())));
    assert_eq!(read_optional_text(Some(&Json::Number(1))), None);
    assert_eq!(read_text_list(Some(&texts(&["a", "b"]))), Some(strings(&["a", "b"])));
    assert_eq!(read_text_list(Some(&Json::List(Vec::new()))), Some(Vec::new()));
    assert_eq!(read_text_list(Some(&Json::List(vec![text("a"), Json::Null]))), None);
    assert_eq!(read_text_list(Some(&text("a"))), None);
    assert_eq!(read_text_list(None), None);
}

#[test]
fn writers_make_the_kinds_the_readers_accept() {
    assert_eq!(Json::text("x"), text("x"));
    assert_eq!(Json::optional_text(&None), Json::Null);
    assert_eq!(Json::optional_text(&Some("x".to_string())), text("x"));
    assert_eq!(Json::text_list(&strings(&["a", "b"])), texts(&["a", "b"]));
    assert_eq!(Json::list(vec![Json::Null]), Json::List(vec![Json::Null]));
    assert_eq!(
        Json::object(vec![member("a", Json::Null)]),
        Json::Object(vec![member("a", Json::Null)])
    );
}

#[test]
fn command_without_id_is_read() {
    let source = r#"{"commandName":"ping","description":"Answers with pong","syntax":"!ping","categories":["utility","fun"]}"#;
    assert_eq!(Command::from_json(&parse(source)), Ok(sample_command(0)));
}

#[test]
fn command_id_in_the_body_is_not_read() {
    let source = r#"{"id":77,"commandName":"ping","description":"Answers with pong","syntax":"!ping","categories":["utility","fun"]}"#;
    assert_eq!(Command::from_json(&parse(source)), Ok(sample_command(0)));
    let source = r#"{"id":"seven","commandName":"ping","description":"Answers with pong","syntax":"!ping","categories":["utility","fun"]}"#;
    assert_eq!(Command::from_json(&parse(source)), Ok(sample_command(0)));
}

#[test]
fn command_is_written_without_id() {
    let written = sample_command(77).to_json();
    assert_eq!(written.get("id"), None);
    assert_eq!(
        written,
        Json::Object(vec![
            member("commandName", text("ping")),
            member("description", text("Answers with pong")),
            member("syntax", text("!ping")),
            member("categories", texts(&["utility", "fun"])),
        ])
    );
    assert_eq!(Command::from_json(&written), Ok(sample_command(0)));
}

#[test]
fn command_with_a_missing_or_wrong_member_is_refused() {
    let source = r#"{"commandName":"ping","description":"d","syntax":"!ping"}"#;
    assert_eq!(Command::from_json(&parse(source)), Err(ClientError::Decode));
    let source = r#"{"commandName":"ping","description":null,"syntax":"!ping","categories":[]}"#;
    assert_eq!(Command::from_json(&parse(source)), Err(ClientError::Decode));
    let source = r#"{"commandName":"ping","description":"d","syntax":"!ping","categories":[1]}"#;
    assert_eq!(Command::from_json(&parse(source)), Err(ClientError::Decode));
    let source = r#"{"command_name":"ping","description":"d","syntax":"!ping","categories":[]}"#;
    assert_eq!(Command::from_json(&parse(source)), Err(ClientError::Decode));
    assert_eq!(Command::from_json(&parse("[]")), Err(ClientError::Decode));
    assert_eq!(Command::from_json(&parse("null")), Err(ClientError::Decode));
}

#[test]
fn user_without_optional_fields_round_trips() {
    let user = bare_user();
    let written = user.to_json();
    assert_eq!(written.get("avatar"), Some(&Json::Null));
    assert_eq!(written.get("banner"), Some(&Json::Null));
    assert_eq!(written.get("bio"), Some(&Json::Null));
    assert_eq!(written.get("displayName"), Some(&Json::Null));
    assert_eq!(written.get("slug"), Some(&Json::Null));
    let read = ok(User::from_json(&written));
    assert_eq!(read, user);
    assert_eq!(read.avatar, None);
    assert_eq!(read.banner, None);
    assert_eq!(read.bio, None);
    assert_eq!(read.display_name, None);
    assert_eq!(read.slug, None);
}

#[test]
fn user_with_all_fields_round_trips() {
    let user = full_user();
    let read = ok(User::from_json(&user.to_json()));
    assert_eq!(read, user);
    assert_eq!(read.bio, Some(String::new()));
}

#[test]
fn user_members_have_camel_case_names() {
    let written = full_user().to_json();
    assert_eq!(written.get("coOwnedBots"), Some(&texts(&["3"])));
    assert_eq!(written.get("coOwnedGuilds"), Some(&texts(&["4", "5"])));
    assert_eq!(written.get("createdOn"), Some(&text("2023-01-01")));
    assert_eq!(written.get("displayName"), Some(&text("Some One")));
    assert_eq!(written.get("co_owned_bots"), None);
    assert_eq!(written.get("CreatedOn"), None);
}

#[test]
fn user_read_from_text() {
    let source = r#"{"bots":[],"claps":3,"coOwnedBots":[],"coOwnedGuilds":[],"createdOn":"2023-01-01","discriminator":0,"flags":0,"guilds":[],"id":"42","packs":[],"username":"someone","avatar":null,"extra":{"nested":[1,2.5,-3]}}"#;
    let expected = User { claps: 3, ..bare_user() };
    assert_eq!(User::from_json(&parse(source)), Ok(expected));
}

#[test]
fn user_with_a_wrong_member_is_refused() {
    let source = r#"{"bots":[],"claps":-3,"coOwnedBots":[],"coOwnedGuilds":[],"createdOn":"2023-01-01","discriminator":0,"flags":0,"guilds":[],"id":"42","packs":[],"username":"someone"}"#;
    assert_eq!(User::from_json(&parse(source)), Err(ClientError::Decode));
    let source = r#"{"bots":[],"claps":1.5,"coOwnedBots":[],"coOwnedGuilds":[],"createdOn":"2023-01-01","discriminator":0,"flags":0,"guilds":[],"id":"42","packs":[],"username":"someone"}"#;
    assert_eq!(User::from_json(&parse(source)), Err(ClientError::Decode));
    let source = r#"{"bots":[],"claps":1,"coOwnedBots":[],"coOwnedGuilds":[],"createdOn":"2023-01-01","discriminator":0,"flags":0,"guilds":[],"id":"42","packs":[],"username":"someone","slug":5}"#;
    assert_eq!(User::from_json(&parse(source)), Err(ClientError::Decode));
    let source = r#"{"bots":[],"claps":1,"coOwnedBots":[],"coOwnedGuilds":[],"createdOn":"2023-01-01","discriminator":0,"flags":0,"guilds":[],"id":"42","packs":[]}"#;
    assert_eq!(User::from_json(&parse(source)), Err(ClientError::Decode));
}

#[test]
fn bot_round_trips() {
    let bot = sample_bot();
    let written = bot.to_json();
    assert_eq!(written.get("botId"), Some(&text("100")));
    assert_eq!(written.get("webhookUrl"), Some(&Json::Null));
    assert_eq!(written.get("isForcedIntoHiding"), Some(&Json::Bool(false)));
    assert_eq!(written.get("allTimeVotes"), Some(&Json::Number(345)));
    assert_eq!(written.get("features"), Some(&Json::Number(0x1ff)));
    assert_eq!(written.get("supportServerUrl"), Some(&text("https://example.org/support")));
    assert_eq!(Bot::from_json(&written), Ok(bot));
}

#[test]
fn bot_with_a_missing_member_is_refused() {
    let written = sample_bot().to_json();
    let members = match written {
        Json::Object(members) => members,
        _ => unreachable!(),
    };
    let without_votes: Vec<(String, Json)> =
        members.into_iter().filter(|(name, _)| name != "votes").collect();
    assert_eq!(Bot::from_json(&Json::Object(without_votes)), Err(ClientError::Decode));
}

#[test]
fn bot_without_optional_members_is_read() {
    let written = sample_bot().to_json();
    let members = match written {
        Json::Object(members) => members,
        _ => unreachable!(),
    };
    let kept: Vec<(String, Json)> = members
        .into_iter()
        .filter(|(name, _)| name != "botId" && name != "webhookUrl" && name != "webhookAuth")
        .collect();
    let expected = Bot { bot_id: None, webhook_url: None, webhook_auth: None, ..sample_bot() };
    assert_eq!(Bot::from_json(&Json::Object(kept)), Ok(expected));
}

#[test]
fn hit_keeps_numeric_looking_text_as_text() {
    let hit = sample_hit("100");
    let written = hit.to_json();
    assert_eq!(written.get("features"), Some(&text("3")));
    assert_eq!(written.get("flags"), Some(&text("0")));
    assert_eq!(written.get("votes"), Some(&text("12")));
    assert_eq!(written.get("guildCount"), Some(&Json::Number(1000)));
    assert_eq!(SearchHit::from_json(&written), Ok(hit));
    let members = match written {
        Json::Object(members) => members,
        _ => unreachable!(),
    };
    let numeric: Vec<(String, Json)> = members
        .into_iter()
        .map(|(name, value)| if name == "votes" { (name, Json::Number(12)) } else { (name, value) })
        .collect();
    assert_eq!(SearchHit::from_json(&Json::Object(numeric)), Err(ClientError::Decode));
}

#[test]
fn results_round_trip() {
    let results = sample_results();
    let written = results.to_json();
    assert_eq!(written.get("nbHits"), Some(&Json::Number(2)));
    assert_eq!(
        written.get("tagDistribution"),
        Some(&Json::Object(vec![
            member("utility", Json::Number(2)),
            member("music", Json::Number(1)),
        ]))
    );
    assert_eq!(SearchResults::from_json(&written), Ok(results));
}

#[test]
fn results_tag_counts() {
    let results = sample_results();
    assert_eq!(results.tag_count("utility"), Some(2));
    assert_eq!(results.tag_count("music"), Some(1));
    assert_eq!(results.tag_count("games"), None);
    assert_eq!(results.tag_count(""), None);
}

#[test]
fn results_keep_the_last_count_of_a_repeated_tag() {
    let written = Json::Object(vec![
        member("hits", Json::List(Vec::new())),
        member("limit", Json::Number(21)),
        member("nbHits", Json::Number(0)),
        member("offset", Json::Number(0)),
        member("query", text("*")),
        member(
            "tagDistribution",
            Json::Object(vec![
                member("a", Json::Number(1)),
                member("b", Json::Number(2)),
                member("a", Json::Number(3)),
            ]),
        ),
    ]);
    let read = ok(SearchResults::from_json(&written));
    assert_eq!(
        read.tag_distribution.pairs(),
        &vec![("a".to_string(), 3), ("b".to_string(), 2)]
    );
    assert_eq!(read.tag_distribution.len(), 2);
    assert_eq!(read.tag_count("a"), Some(3));
    assert!(read.hits.is_empty());
}

#[test]
fn results_with_a_wrong_member_are_refused() {
    let results = |hits: Json, tags: Json| {
        Json::Object(vec![
            member("hits", hits),
            member("limit", Json::Number(21)),
            member("nbHits", Json::Number(0)),
            member("offset", Json::Number(0)),
            member("query", text("*")),
            member("tagDistribution", tags),
        ])
    };
    assert!(SearchResults::from_json(&results(Json::List(Vec::new()), Json::Object(Vec::new())))
        .is_ok());
    assert_eq!(
        SearchResults::from_json(&results(
            Json::List(vec![Json::Object(Vec::new())]),
            Json::Object(Vec::new())
        )),
        Err(ClientError::Decode)
    );
    assert_eq!(
        SearchResults::from_json(&results(
            Json::List(Vec::new()),
            Json::Object(vec![member("a", Json::Number(1)), member("b", text("2"))])
        )),
        Err(ClientError::Decode)
    );
    assert_eq!(
        SearchResults::from_json(&results(Json::Null, Json::Object(Vec::new()))),
        Err(ClientError::Decode)
    );
    assert_eq!(
        SearchResults::from_json(&results(Json::List(Vec::new()), Json::List(Vec::new()))),
        Err(ClientError::Decode)
    );
}

#[test]
fn request_body_follows_the_payload() {
    let request = |payload: Payload| Request {
        method: Method::Post,
        url: "https://example.org/".to_string(),
        bearer: "t".to_string(),
        payload,
    };
    assert_eq!(request(Payload::Empty).body(), None);
    assert_eq!(
        request(Payload::Command(sample_command(5))).body(),
        Some(sample_command(5).to_json())
    );
    let options = SearchOptions::default().query("*".to_string());
    assert_eq!(
        request(Payload::Search(options.clone())).body(),
        Some(options.to_json())
    );
    assert_eq!(
        request(Payload::Search(options)).body().as_ref().and_then(|b| b.get("query")),
        Some(&text("*"))
    );
}

#[test]
fn answer_without_record() {
    assert_eq!(Response { status: 200, body: None }.finish(), Ok(()));
    assert_eq!(Response { status: 204, body: Some(Json::Null) }.finish(), Ok(()));
    assert_eq!(
        Response { status: 403, body: None }.finish(),
        Err(ClientError::Api { status: 403 })
    );
    assert_eq!(
        Response { status: 503, body: Some(text("down")) }.finish(),
        Err(ClientError::Api { status: 503 })
    );
    assert_eq!(Response { status: 200, body: None }.finish(), check_status(200));
}

#[test]
fn answer_with_record() {
    let good = Response { status: 200, body: Some(sample_bot().to_json()) };
    assert_eq!(good.bot(), Ok(sample_bot()));
    assert_eq!(good.user(), Err(ClientError::Decode));
    let refused = Response { status: 404, body: Some(sample_bot().to_json()) };
    assert_eq!(refused.bot(), Err(ClientError::Api { status: 404 }));
    let empty = Response { status: 200, body: None };
    assert_eq!(empty.bot(), Err(ClientError::Decode));
    assert_eq!(empty.user(), Err(ClientError::Decode));
    assert_eq!(empty.command(), Err(ClientError::Decode));
    assert_eq!(empty.results(), Err(ClientError::Decode));
    let failed = Response { status: 500, body: None };
    assert_eq!(failed.user(), Err(ClientError::Api { status: 500 }));
    assert_eq!(failed.command(), Err(ClientError::Api { status: 500 }));
    assert_eq!(failed.results(), Err(ClientError::Api { status: 500 }));
    assert_eq!(
        Response { status: 200, body: Some(full_user().to_json()) }.user(),
        Ok(full_user())
    );
    assert_eq!(
        Response { status: 201, body: Some(sample_command(9).to_json()) }.command(),
        Ok(sample_command(0))
    );
    assert_eq!(
        Response { status: 200, body: Some(sample_results().to_json()) }.results(),
        Ok(sample_results())
    );
}

#[test]
fn distribution_holds_each_tag_once() {
    let empty = TagDistribution::new();
    assert_eq!(empty.len(), 0);
    assert_eq!(empty.get("a"), None);
    assert!(empty.pairs().is_empty());
    let one = empty.insert("a".to_string(), 1);
    assert_eq!(one.get("a"), Some(1));
    assert_eq!(one.len(), 1);
    let two = one.clone().insert("b".to_string(), 2);
    assert_eq!(two.pairs(), &vec![("a".to_string(), 1), ("b".to_string(), 2)]);
    let again = two.clone().insert("a".to_string(), 7);
    assert_eq!(again.pairs(), &vec![("a".to_string(), 7), ("b".to_string(), 2)]);
    assert_eq!(again.len(), 2);
    assert_eq!(again.get("a"), Some(7));
    assert_eq!(again.get("b"), Some(2));
    assert_eq!(again.get("c"), None);
    assert_eq!(one.get("b"), None);
    assert_eq!(two.get("a"), Some(1));
    assert_eq!(two.clone(), two);
}

#[test]
fn distribution_is_written_as_an_object() {
    let distribution = TagDistribution::new()
        .insert("utility".to_string(), 2)
        .insert("music".to_string(), 1);
    assert_eq!(
        distribution.to_json(),
        Json::Object(vec![
            member("utility", Json::Number(2)),
            member("music", Json::Number(1)),
        ])
    );
    assert_eq!(TagDistribution::new().to_json(), Json::Object(Vec::new()));
}
