use discordlist::features::{SearchFeatures, COMMANDS, DASHBOARD, PREFIX};
use discordlist::http::ClientError;
use discordlist::search::{
    SearchFilter, SearchFilterMode, SearchOptions, SearchOrder, SearchSort,
};
use discordlist::wire::Json;

fn member(name: &str, value: Json) -> (String, Json) {
    (name.to_string(), value)
}

fn filter_object(features: u64, mode: &str) -> Json {
    Json::Object(vec![
        member("tags", Json::List(vec![Json::Text("music".to_string())])),
        member("features", Json::Number(features)),
        member("premium", Json::Bool(true)),
        member("filterMode", Json::Text(mode.to_string())),
    ])
}

fn options_object(query: Json, sort: &str, order: &str) -> Json {
    Json::Object(vec![
        member("query", query),
        member("limit", Json::Number(21)),
        member("offset", Json::Number(0)),
        member("filter", filter_object(0, "intersection")),
        member("sort", Json::Text(sort.to_string())),
        member("order", Json::Text(order.to_string())),
    ])
}

#[test]
fn default_options() {
    let options = SearchOptions::default();
    assert_eq!(options.query, None);
    assert_eq!(options.limit, 21);
    assert_eq!(options.offset, 0);
    assert_eq!(options.sort, SearchSort::Trending);
    assert_eq!(options.order, SearchOrder::Descending);
    assert_eq!(options.filter.filter_mode, SearchFilterMode::Intersection);
    assert!(options.filter.features.is_empty());
    assert!(options.filter.tags.is_empty());
    assert!(!options.filter.premium);
    assert_eq!(options.filter, SearchFilter::default());
}

#[test]
fn default_enum_values() {
    assert_eq!(SearchSort::default(), SearchSort::Trending);
    assert_eq!(SearchOrder::default(), SearchOrder::Descending);
    assert_eq!(SearchFilterMode::default(), SearchFilterMode::Intersection);
}

#[test]
fn each_builder_replaces_one_field() {
    let base = SearchOptions::default();
    let with_query = base.clone().query("cats".to_string());
    assert_eq!(with_query.query, Some("cats".to_string()));
    assert_eq!(with_query.clone().query(String::new()).query, Some(String::new()));
    assert_eq!(SearchOptions { query: None, ..with_query }, base);

    let with_limit = base.clone().limit(100);
    assert_eq!(with_limit.limit, 100);
    assert_eq!(SearchOptions { limit: 21, ..with_limit }, base);

    let with_offset = base.clone().offset(u64::MAX);
    assert_eq!(with_offset.offset, u64::MAX);
    assert_eq!(SearchOptions { offset: 0, ..with_offset }, base);

    let with_sort = base.clone().sort(SearchSort::Votes);
    assert_eq!(with_sort.sort, SearchSort::Votes);
    assert_eq!(SearchOptions { sort: SearchSort::Trending, ..with_sort }, base);

    let with_order = base.clone().order(SearchOrder::Ascending);
    assert_eq!(with_order.order, SearchOrder::Ascending);
    assert_eq!(SearchOptions { order: SearchOrder::Descending, ..with_order }, base);

    let filter = SearchFilter::default().premium(true);
    let with_filter = base.clone().filter(filter.clone());
    assert_eq!(with_filter.filter, filter);
    assert_eq!(SearchOptions { filter: SearchFilter::default(), ..with_filter }, base);
}

#[test]
fn limit_and_offset_are_not_checked() {
    let options = SearchOptions::default().limit(0).offset(u64::MAX);
    assert_eq!(options.limit, 0);
    assert_eq!(options.offset, u64::MAX);
    let options = options.limit(u64::MAX);
    assert_eq!(options.limit, u64::MAX);
}

#[test]
fn each_filter_builder_replaces_one_field() {
    let base = SearchFilter::default();
    let tagged = base.clone().tags(vec!["a".to_string(), "b".to_string()]);
    assert_eq!(tagged.tags, vec!["a".to_string(), "b".to_string()]);
    assert_eq!(SearchFilter { tags: Vec::new(), ..tagged }, base);

    let featured = base.clone().features(SearchFeatures::from_bits_truncate(PREFIX | DASHBOARD));
    assert_eq!(featured.features.bits(), PREFIX | DASHBOARD);
    assert_eq!(SearchFilter { features: SearchFeatures::empty(), ..featured }, base);

    let premium = base.clone().premium(true);
    assert!(premium.premium);
    assert_eq!(SearchFilter { premium: false, ..premium }, base);

    let union = base.clone().filter_mode(SearchFilterMode::Union);
    assert_eq!(union.filter_mode, SearchFilterMode::Union);
    assert_eq!(SearchFilter { filter_mode: SearchFilterMode::Intersection, ..union }, base);
}

#[test]
fn tags_on_a_derived_filter_leave_earlier_values_alone() {
    let base = SearchOptions::default().limit(5);
    let first = base.clone().filter(base.filter.clone().tags(vec!["music".to_string()]));
    let first_before = first.clone();
    let second = base.clone().filter(base.filter.clone().tags(vec!["games".to_string()]));
    assert_eq!(first, first_before);
    assert_eq!(first.filter.tags, vec!["music".to_string()]);
    assert_eq!(second.filter.tags, vec!["games".to_string()]);
    assert!(base.filter.tags.is_empty());
    assert_eq!(base, SearchOptions::default().limit(5));
    assert_eq!(first.limit, 5);
    assert_eq!(second.limit, 5);
    let third = first.clone().filter(first.filter.clone().tags(Vec::new()));
    assert_eq!(third, base);
    assert_eq!(first, first_before);
}

#[test]
fn or_wildcard_fills_only_an_absent_query() {
    assert_eq!(SearchOptions::default().or_wildcard().query, Some("*".to_string()));
    let named = SearchOptions::default().query("bots".to_string());
    assert_eq!(named.clone().or_wildcard(), named);
    let empty = SearchOptions::default().query(String::new());
    assert_eq!(empty.clone().or_wildcard(), empty);
    let other = SearchOptions::default().limit(3).sort(SearchSort::Age);
    assert_eq!(other.clone().or_wildcard(), other.query("*".to_string()));
}

#[test]
fn sort_tokens() {
    assert_eq!(SearchSort::Relevancy.as_str(), "relevancy");
    assert_eq!(SearchSort::Votes.as_str(), "votes");
    assert_eq!(SearchSort::Age.as_str(), "age");
    assert_eq!(SearchSort::Trending.as_str(), "trending");
    assert_eq!(SearchSort::Popularity.as_str(), "popularity");
    assert_eq!(SearchSort::Premium.as_str(), "premium");
    assert_eq!(SearchSort::from_token("relevancy"), Some(SearchSort::Relevancy));
    assert_eq!(SearchSort::from_token("votes"), Some(SearchSort::Votes));
    assert_eq!(SearchSort::from_token("age"), Some(SearchSort::Age));
    assert_eq!(SearchSort::from_token("trending"), Some(SearchSort::Trending));
    assert_eq!(SearchSort::from_token("popularity"), Some(SearchSort::Popularity));
    assert_eq!(SearchSort::from_token("premium"), Some(SearchSort::Premium));
    assert_eq!(SearchSort::from_token("Trending"), None);
    assert_eq!(SearchSort::from_token(""), None);
}

#[test]
fn order_and_mode_tokens() {
    assert_eq!(SearchOrder::Descending.as_str(), "desc");
    assert_eq!(SearchOrder::Ascending.as_str(), "asc");
    assert_eq!(SearchOrder::from_token("desc"), Some(SearchOrder::Descending));
    assert_eq!(SearchOrder::from_token("asc"), Some(SearchOrder::Ascending));
    assert_eq!(SearchOrder::from_token("descending"), None);
    assert_eq!(SearchFilterMode::Union.as_str(), "union");
    assert_eq!(SearchFilterMode::Intersection.as_str(), "intersection");
    assert_eq!(SearchFilterMode::from_token("union"), Some(SearchFilterMode::Union));
    assert_eq!(SearchFilterMode::from_token("intersection"), Some(SearchFilterMode::Intersection));
    assert_eq!(SearchFilterMode::from_token("both"), None);
}

#[test]
fn options_are_written_with_fixed_names_and_tokens() {
    let options = SearchOptions::default()
        .query("*".to_string())
        .filter(
            SearchFilter::default()
                .tags(vec!["music".to_string()])
                .features(SearchFeatures::from_bits_truncate(PREFIX | COMMANDS))
                .premium(true)
                .filter_mode(SearchFilterMode::Union),
        )
        .sort(SearchSort::Popularity)
        .order(SearchOrder::Ascending);
    let expected = Json::Object(vec![
        member("query", Json::Text("*".to_string())),
        member("limit", Json::Number(21)),
        member("offset", Json::Number(0)),
        member("filter", filter_object(5, "union")),
        member("sort", Json::Text("popularity".to_string())),
        member("order", Json::Text("asc".to_string())),
    ]);
    assert_eq!(options.to_json(), expected);
}

#[test]
fn absent_query_is_written_as_null() {
    assert_eq!(
        SearchOptions::default().to_json().get("query"),
        Some(&Json::Null)
    );
}

#[test]
fn options_round_trip() {
    let options = SearchOptions::default()
        .query("cats".to_string())
        .limit(7)
        .offset(14)
        .filter(filter_from(0xff))
        .sort(SearchSort::Age);
    assert_eq!(SearchOptions::from_json(&options.to_json()), Ok(options));
    let plain = SearchOptions::default();
    assert_eq!(SearchOptions::from_json(&plain.to_json()), Ok(plain));
}

fn filter_from(features: u64) -> SearchFilter {
    match SearchFilter::from_json(&filter_object(features, "intersection")) {
        Ok(filter) => filter,
        Err(error) => panic!("no filter: {:?}", error),
    }
}

#[test]
fn reading_a_filter_drops_unknown_feature_bits() {
    assert_eq!(filter_from(0x105).features.bits(), 0x05);
    assert_eq!(filter_from(u64::MAX).features, SearchFeatures::all());
    assert_eq!(filter_from(0xab00).features, SearchFeatures::empty());
    let filter = filter_from(3);
    assert_eq!(filter.tags, vec!["music".to_string()]);
    assert!(filter.premium);
    assert_eq!(filter.filter_mode, SearchFilterMode::Intersection);
}

#[test]
fn reading_options_refuses_other_shapes() {
    assert!(SearchOptions::from_json(&options_object(Json::Null, "votes", "asc")).is_ok());
    assert_eq!(
        SearchOptions::from_json(&options_object(Json::Null, "Votes", "asc")),
        Err(ClientError::Decode)
    );
    assert_eq!(
        SearchOptions::from_json(&options_object(Json::Null, "votes", "up")),
        Err(ClientError::Decode)
    );
    assert_eq!(
        SearchOptions::from_json(&options_object(Json::Number(1), "votes", "asc")),
        Err(ClientError::Decode)
    );
    assert_eq!(SearchOptions::from_json(&Json::Null), Err(ClientError::Decode));
    assert_eq!(SearchOptions::from_json(&Json::List(Vec::new())), Err(ClientError::Decode));
    assert_eq!(
        SearchFilter::from_json(&filter_object(0, "neither")),
        Err(ClientError::Decode)
    );
    assert_eq!(
        SearchFilter::from_json(&Json::Object(vec![member("tags", Json::List(Vec::new()))])),
        Err(ClientError::Decode)
    );
}
