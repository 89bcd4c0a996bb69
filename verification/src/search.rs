//! Options of a bot search, built by chained calls that each replace one
//! field and hand back a new value.

use crate::features::{truncated, SearchFeatures, KNOWN_FEATURE_BITS};
use crate::http::ClientError;
use crate::wire::{
    as_bool, as_number, as_optional_text, as_text, as_text_list, chars_of, get, name_mark,
    optional_text, read_bool, read_number, read_optional_text, read_text, read_text_list,
    text_list,
};
use crate::wire::{lemma_member_at, lemma_read_what_was_written};
use crate::wire::{Json, JsonView};
use vstd::prelude::*;
use vstd::string::StringExecFns;

verus! {

/// The key by which search results are ordered.
#[derive(Clone, Copy, Debug, PartialEq, Eq, Hash, Structural)]
pub enum SearchSort {
    Relevancy,
    Votes,
    Age,
    Trending,
    Popularity,
    Premium,
}

/// The direction in which search results are ordered.
#[derive(Clone, Copy, Debug, PartialEq, Eq, Hash, Structural)]
pub enum SearchOrder {
    Descending,
    Ascending,
}

/// Whether a bot must carry all of the filter's tags or only one of them.
#[derive(Clone, Copy, Debug, PartialEq, Eq, Hash, Structural)]
pub enum SearchFilterMode {
    Union,
    Intersection,
}

impl SearchSort {
    /// The lowercase token that stands for the key on the wire.
    pub open spec fn token(self) -> Seq<char> {
        match self {
            SearchSort::Relevancy => "relevancy"@,
            SearchSort::Votes => "votes"@,
            SearchSort::Age => "age"@,
            SearchSort::Trending => "trending"@,
            SearchSort::Popularity => "popularity"@,
            SearchSort::Premium => "premium"@,
        }
    }

    /// The lowercase token that stands for the key on the wire.
    pub fn as_str(&self) -> (r: &'static str)
        ensures
            r@ == self.token(),
    {
        match self {
            SearchSort::Relevancy => "relevancy",
            SearchSort::Votes => "votes",
            SearchSort::Age => "age",
            SearchSort::Trending => "trending",
            SearchSort::Popularity => "popularity",
            SearchSort::Premium => "premium",
        }
    }
}

impl SearchOrder {
    /// The lowercase token that stands for the direction on the wire.
    pub open spec fn token(self) -> Seq<char> {
        match self {
            SearchOrder::Descending => "desc"@,
            SearchOrder::Ascending => "asc"@,
        }
    }

    /// The lowercase token that stands for the direction on the wire.
    pub fn as_str(&self) -> (r: &'static str)
        ensures
            r@ == self.token(),
    {
        match self {
            SearchOrder::Descending => "desc",
            SearchOrder::Ascending => "asc",
        }
    }
}

impl SearchFilterMode {
    /// The lowercase token that stands for the mode on the wire.
    pub open spec fn token(self) -> Seq<char> {
        match self {
            SearchFilterMode::Union => "union"@,
            SearchFilterMode::Intersection => "intersection"@,
        }
    }

    /// The lowercase token that stands for the mode on the wire.
    pub fn as_str(&self) -> (r: &'static str)
        ensures
            r@ == self.token(),
    {
        match self {
            SearchFilterMode::Union => "union",
            SearchFilterMode::Intersection => "intersection",
        }
    }
}

/// The key that `token` stands for, if it stands for one.
pub open spec fn sort_of_token(token: Seq<char>) -> Option<SearchSort> {
    if token == "relevancy"@ {
        Some(SearchSort::Relevancy)
    } else if token == "votes"@ {
        Some(SearchSort::Votes)
    } else if token == "age"@ {
        Some(SearchSort::Age)
    } else if token == "trending"@ {
        Some(SearchSort::Trending)
    } else if token == "popularity"@ {
        Some(SearchSort::Popularity)
    } else if token == "premium"@ {
        Some(SearchSort::Premium)
    } else {
        None
    }
}

/// The direction that `token` stands for, if it stands for one.
pub open spec fn order_of_token(token: Seq<char>) -> Option<SearchOrder> {
    if token == "desc"@ {
        Some(SearchOrder::Descending)
    } else if token == "asc"@ {
        Some(SearchOrder::Ascending)
    } else {
        None
    }
}

/// The mode that `token` stands for, if it stands for one.
pub open spec fn mode_of_token(token: Seq<char>) -> Option<SearchFilterMode> {
    if token == "union"@ {
        Some(SearchFilterMode::Union)
    } else if token == "intersection"@ {
        Some(SearchFilterMode::Intersection)
    } else {
        None
    }
}

impl SearchSort {
    /// Reads a key from its token.
    pub fn from_token(token: &str) -> (r: Option<SearchSort>)
        ensures
            r == sort_of_token(token@),
    {
        let t = String::from_str(token);
        if t == String::from_str("relevancy") {
            Some(SearchSort::Relevancy)
        } else if t == String::from_str("votes") {
            Some(SearchSort::Votes)
        } else if t == String::from_str("age") {
            Some(SearchSort::Age)
        } else if t == String::from_str("trending") {
            Some(SearchSort::Trending)
        } else if t == String::from_str("popularity") {
            Some(SearchSort::Popularity)
        } else if t == String::from_str("premium") {
            Some(SearchSort::Premium)
        } else {
            None
        }
    }
}

impl SearchOrder {
    /// Reads a direction from its token.
    pub fn from_token(token: &str) -> (r: Option<SearchOrder>)
        ensures
            r == order_of_token(token@),
    {
        let t = String::from_str(token);
        if t == String::from_str("desc") {
            Some(SearchOrder::Descending)
        } else if t == String::from_str("asc") {
            Some(SearchOrder::Ascending)
        } else {
            None
        }
    }
}

impl SearchFilterMode {
    /// Reads a mode from its token.
    pub fn from_token(token: &str) -> (r: Option<SearchFilterMode>)
        ensures
            r == mode_of_token(token@),
    {
        let t = String::from_str(token);
        if t == String::from_str("union") {
            Some(SearchFilterMode::Union)
        } else if t == String::from_str("intersection") {
            Some(SearchFilterMode::Intersection)
        } else {
            None
        }
    }
}

/// The marks of the tokens: no two tokens of one kind are alike.
proof fn lemma_token_marks()
    ensures
        name_mark("relevancy"@) == (9nat, 'r', 'v', 'y'),
        name_mark("votes"@) == (5nat, 'v', 't', 's'),
        name_mark("age"@) == (3nat, 'a', 'g', 'e'),
        name_mark("trending"@) == (8nat, 't', 'd', 'g'),
        name_mark("popularity"@) == (10nat, 'p', 'a', 'y'),
        name_mark("premium"@) == (7nat, 'p', 'm', 'm'),
        name_mark("desc"@) == (4nat, 'd', 's', 'c'),
        name_mark("asc"@) == (3nat, 'a', 's', 'c'),
        name_mark("union"@) == (5nat, 'u', 'i', 'n'),
        name_mark("intersection"@) == (12nat, 'i', 'e', 'n'),
{
    reveal_strlit("relevancy");
    reveal_strlit("votes");
    reveal_strlit("age");
    reveal_strlit("trending");
    reveal_strlit("popularity");
    reveal_strlit("premium");
    reveal_strlit("desc");
    reveal_strlit("asc");
    reveal_strlit("union");
    reveal_strlit("intersection");
}

/// Every key, direction and mode is read back from its own token, so no two
/// of a kind share a token.
pub proof fn lemma_tokens_round_trip(sort: SearchSort, order: SearchOrder, mode: SearchFilterMode)
    ensures
        sort_of_token(sort.token()) == Some(sort),
        order_of_token(order.token()) == Some(order),
        mode_of_token(mode.token()) == Some(mode),
{
    lemma_token_marks();
}

impl Default for SearchSort {
    /// Results are ordered by trend unless the caller asks otherwise.
    fn default() -> (r: SearchSort)
        ensures
            r == SearchSort::Trending,
    {
        SearchSort::Trending
    }
}

impl Default for SearchOrder {
    /// Results come in descending order unless the caller asks otherwise.
    fn default() -> (r: SearchOrder)
        ensures
            r == SearchOrder::Descending,
    {
        SearchOrder::Descending
    }
}

impl Default for SearchFilterMode {
    /// A bot must carry every tag unless the caller asks otherwise.
    fn default() -> (r: SearchFilterMode)
        ensures
            r == SearchFilterMode::Intersection,
    {
        SearchFilterMode::Intersection
    }
}

/// What a [`SearchFilter`] holds, as mathematical values.
pub struct SearchFilterView {
    pub tags: Seq<Seq<char>>,
    pub features: u64,
    pub premium: bool,
    pub filter_mode: SearchFilterMode,
}

/// What a [`SearchOptions`] holds, as mathematical values.
pub struct SearchOptionsView {
    pub query: Option<Seq<char>>,
    pub limit: u64,
    pub offset: u64,
    pub filter: SearchFilterView,
    pub sort: SearchSort,
    pub order: SearchOrder,
}

/// The filter a search starts from: no tag, no feature, not limited to
/// premium bots, every tag required.
pub open spec fn default_filter() -> SearchFilterView {
    SearchFilterView {
        tags: Seq::empty(),
        features: 0,
        premium: false,
        filter_mode: SearchFilterMode::Intersection,
    }
}

/// The options a search starts from: no query, 21 results from the first
/// on, the default filter, ordered by trend, descending.
pub open spec fn default_options() -> SearchOptionsView {
    SearchOptionsView {
        query: None,
        limit: 21,
        offset: 0,
        filter: default_filter(),
        sort: SearchSort::Trending,
        order: SearchOrder::Descending,
    }
}

/// The query that is sent for options that name none.
pub open spec fn wildcard() -> Seq<char> {
    "*"@
}

/// The options that a search sends: `options` with the wildcard as query
/// where they name none, and as they are where they name one.
pub open spec fn sent_options(options: SearchOptionsView) -> SearchOptionsView {
    SearchOptionsView {
        query: Some(
            match options.query {
                Some(q) => q,
                None => wildcard(),
            },
        ),
        ..options
    }
}

/// Which bots a search considers.
#[derive(Debug, PartialEq, Eq, Hash)]
pub struct SearchFilter {
    pub tags: Vec<String>,
    pub features: SearchFeatures,
    pub premium: bool,
    pub filter_mode: SearchFilterMode,
}

/// A search: what to look for, how many results to return from which
/// offset, which bots to consider and how to order them.
#[derive(Debug, PartialEq, Eq, Hash)]
pub struct SearchOptions {
    pub query: Option<String>,
    pub limit: u64,
    pub offset: u64,
    pub filter: SearchFilter,
    pub sort: SearchSort,
    pub order: SearchOrder,
}

impl View for SearchFilter {
    type V = SearchFilterView;

    open spec fn view(&self) -> SearchFilterView {
        SearchFilterView {
            tags: self.tags.deep_view(),
            features: self.features@,
            premium: self.premium,
            filter_mode: self.filter_mode,
        }
    }
}

impl View for SearchOptions {
    type V = SearchOptionsView;

    open spec fn view(&self) -> SearchOptionsView {
        SearchOptionsView {
            query: match self.query {
                Some(q) => Some(q@),
                None => None,
            },
            limit: self.limit,
            offset: self.offset,
            filter: self.filter@,
            sort: self.sort,
            order: self.order,
        }
    }
}

impl Clone for SearchFilter {
    /// A second filter that holds the same values.
    fn clone(&self) -> (r: SearchFilter)
        ensures
            r@ == self@,
    {
        let tags = self.tags.clone();
        assert(tags.deep_view() =~= self.tags.deep_view());
        SearchFilter {
            tags,
            features: self.features,
            premium: self.premium,
            filter_mode: self.filter_mode,
        }
    }
}

impl Clone for SearchOptions {
    /// A second value that holds the same options.
    fn clone(&self) -> (r: SearchOptions)
        ensures
            r@ == self@,
    {
        SearchOptions {
            query: self.query.clone(),
            limit: self.limit,
            offset: self.offset,
            filter: self.filter.clone(),
            sort: self.sort,
            order: self.order,
        }
    }
}

impl SearchFilter {
    /// The same filter with `tags` in place of its tags.
    pub fn tags(self, tags: Vec<String>) -> (r: SearchFilter)
        ensures
            r@ == (SearchFilterView { tags: tags.deep_view(), ..self@ }),
    {
        SearchFilter { tags, ..self }
    }

    /// The same filter with `features` in place of its features.
    pub fn features(self, features: SearchFeatures) -> (r: SearchFilter)
        ensures
            r@ == (SearchFilterView { features: features@, ..self@ }),
    {
        SearchFilter { features, ..self }
    }

    /// The same filter, limited to premium bots or not.
    pub fn premium(self, premium: bool) -> (r: SearchFilter)
        ensures
            r@ == (SearchFilterView { premium: premium, ..self@ }),
    {
        SearchFilter { premium, ..self }
    }

    /// The same filter with `filter_mode` in place of its mode.
    pub fn filter_mode(self, filter_mode: SearchFilterMode) -> (r: SearchFilter)
        ensures
            r@ == (SearchFilterView { filter_mode: filter_mode, ..self@ }),
    {
        SearchFilter { filter_mode, ..self }
    }
}

impl Default for SearchFilter {
    fn default() -> (r: SearchFilter)
        ensures
            r@ == default_filter(),
    {
        let r = SearchFilter {
            tags: Vec::new(),
            features: SearchFeatures::empty(),
            premium: false,
            filter_mode: SearchFilterMode::Intersection,
        };
        assert(r.tags.deep_view() =~= Seq::<Seq<char>>::empty());
        r
    }
}

impl SearchOptions {
    /// The same options, looking for `query`.
    pub fn query(self, query: String) -> (r: SearchOptions)
        ensures
            r@ == (SearchOptionsView { query: Some(query@), ..self@ }),
    {
        SearchOptions { query: Some(query), ..self }
    }

    /// The same options, returning at most `limit` results. The value is not
    /// checked: the service decides which limits it accepts.
    pub fn limit(self, limit: u64) -> (r: SearchOptions)
        ensures
            r@ == (SearchOptionsView { limit: limit, ..self@ }),
    {
        SearchOptions { limit, ..self }
    }

    /// The same options, skipping the first `offset` results. The value is
    /// not checked: the service decides which offsets it accepts.
    pub fn offset(self, offset: u64) -> (r: SearchOptions)
        ensures
            r@ == (SearchOptionsView { offset: offset, ..self@ }),
    {
        SearchOptions { offset, ..self }
    }

    /// The same options with `filter` in place of their filter.
    pub fn filter(self, filter: SearchFilter) -> (r: SearchOptions)
        ensures
            r@ == (SearchOptionsView { filter: filter@, ..self@ }),
    {
        SearchOptions { filter, ..self }
    }

    /// The same options, ordered by `sort`.
    pub fn sort(self, sort: SearchSort) -> (r: SearchOptions)
        ensures
            r@ == (SearchOptionsView { sort: sort, ..self@ }),
    {
        SearchOptions { sort, ..self }
    }

    /// The same options, ordered in the direction `order`.
    pub fn order(self, order: SearchOrder) -> (r: SearchOptions)
        ensures
            r@ == (SearchOptionsView { order: order, ..self@ }),
    {
        SearchOptions { order, ..self }
    }

    /// The options as they are sent: a search that names no query looks for
    /// the wildcard, every other field is untouched.
    pub fn or_wildcard(self) -> (r: SearchOptions)
        ensures
            r@ == sent_options(self@),
    {
        if self.query.is_none() {
            SearchOptions { query: Some("*".to_owned()), ..self }
        } else {
            self
        }
    }
}

impl Default for SearchOptions {
    fn default() -> (r: SearchOptions)
        ensures
            r@ == default_options(),
    {
        SearchOptions {
            query: None,
            limit: 21,
            offset: 0,
            filter: SearchFilter::default(),
            sort: SearchSort::default(),
            order: SearchOrder::default(),
        }
    }
}

/// The JSON object that stands for a filter. The features are written as
/// their mask, the mode as its token.
pub open spec fn filter_json(f: SearchFilterView) -> JsonView {
    JsonView::Object(
        seq![
            ("tags"@, text_list(f.tags)),
            ("features"@, JsonView::Number(f.features)),
            ("premium"@, JsonView::Bool(f.premium)),
            ("filterMode"@, JsonView::Text(f.filter_mode.token())),
        ],
    )
}

/// The JSON object that stands for the options of a search. A query that is
/// absent is written as `null`; key and direction are written as their
/// tokens.
pub open spec fn options_json(o: SearchOptionsView) -> JsonView {
    JsonView::Object(
        seq![
            ("query"@, optional_text(o.query)),
            ("limit"@, JsonView::Number(o.limit)),
            ("offset"@, JsonView::Number(o.offset)),
            ("filter"@, filter_json(o.filter)),
            ("sort"@, JsonView::Text(o.sort.token())),
            ("order"@, JsonView::Text(o.order.token())),
        ],
    )
}

/// The mode that a member stands for, where it is a text that is the token
/// of one.
pub open spec fn as_mode(v: Option<JsonView>) -> Option<SearchFilterMode> {
    match as_text(v) {
        Some(token) => mode_of_token(token),
        None => None,
    }
}

/// The key that a member stands for, where it is a text that is the token of
/// one.
pub open spec fn as_sort(v: Option<JsonView>) -> Option<SearchSort> {
    match as_text(v) {
        Some(token) => sort_of_token(token),
        None => None,
    }
}

/// The direction that a member stands for, where it is a text that is the
/// token of one.
pub open spec fn as_order(v: Option<JsonView>) -> Option<SearchOrder> {
    match as_text(v) {
        Some(token) => order_of_token(token),
        None => None,
    }
}

/// Whether `v` is an object with the members of a filter, each of its kind.
pub open spec fn is_filter(v: JsonView) -> bool {
    &&& as_text_list(get(v, "tags"@)) is Some
    &&& as_number(get(v, "features"@)) is Some
    &&& as_bool(get(v, "premium"@)) is Some
    &&& as_mode(get(v, "filterMode"@)) is Some
}

/// The filter that `v` stands for, where `v` has the members of one. Of the
/// mask of features only the defined bits are kept.
pub open spec fn filter_from_json(v: JsonView) -> Option<SearchFilterView> {
    if is_filter(v) {
        Some(
            SearchFilterView {
                tags: as_text_list(get(v, "tags"@))->0,
                features: truncated(as_number(get(v, "features"@))->0),
                premium: as_bool(get(v, "premium"@))->0,
                filter_mode: as_mode(get(v, "filterMode"@))->0,
            },
        )
    } else {
        None
    }
}

/// The filter that a member stands for, where it is there and stands for
/// one.
pub open spec fn as_filter(v: Option<JsonView>) -> Option<SearchFilterView> {
    match v {
        Some(v) => filter_from_json(v),
        None => None,
    }
}

/// Whether `v` is an object with the members of search options, each of its
/// kind.
pub open spec fn is_options(v: JsonView) -> bool {
    &&& as_optional_text(get(v, "query"@)) is Some
    &&& as_number(get(v, "limit"@)) is Some
    &&& as_number(get(v, "offset"@)) is Some
    &&& as_filter(get(v, "filter"@)) is Some
    &&& as_sort(get(v, "sort"@)) is Some
    &&& as_order(get(v, "order"@)) is Some
}

/// The options that `v` stands for, where `v` has the members of search
/// options.
pub open spec fn options_from_json(v: JsonView) -> Option<SearchOptionsView> {
    if is_options(v) {
        Some(
            SearchOptionsView {
                query: as_optional_text(get(v, "query"@))->0,
                limit: as_number(get(v, "limit"@))->0,
                offset: as_number(get(v, "offset"@))->0,
                filter: as_filter(get(v, "filter"@))->0,
                sort: as_sort(get(v, "sort"@))->0,
                order: as_order(get(v, "order"@))->0,
            },
        )
    } else {
        None
    }
}

impl SearchFilter {
    /// Writes the filter as a JSON object.
    pub fn to_json(&self) -> (r: Json)
        ensures
            r@ == filter_json(self@),
    {
        let mut members: Vec<(String, Json)> = Vec::new();
        members.push((String::from_str("tags"), Json::text_list(&self.tags)));
        members.push((String::from_str("features"), Json::Number(self.features.bits())));
        members.push((String::from_str("premium"), Json::Bool(self.premium)));
        members.push((String::from_str("filterMode"), Json::text(self.filter_mode.as_str())));
        let r = Json::object(members);
        assert(r@->Object_0 =~= filter_json(self@)->Object_0);
        r
    }

    /// Reads a filter from a JSON object. Fails with `Decode` where a member
    /// of a filter is missing or of another kind. Bits of the mask of
    /// features that name no feature are dropped.
    pub fn from_json(v: &Json) -> (r: Result<SearchFilter, ClientError>)
        ensures
            match filter_from_json(v@) {
                Some(x) => r matches Ok(read) && read@ == x,
                None => r matches Err(e) && e == ClientError::Decode,
            },
    {
        let tags = match read_text_list(v.get("tags")) {
            Some(x) => x,
            None => return Err(ClientError::Decode),
        };
        let features = match read_number(v.get("features")) {
            Some(x) => SearchFeatures::from_bits_truncate(x),
            None => return Err(ClientError::Decode),
        };
        let premium = match read_bool(v.get("premium")) {
            Some(x) => x,
            None => return Err(ClientError::Decode),
        };
        let filter_mode = match read_text(v.get("filterMode")) {
            Some(token) => match SearchFilterMode::from_token(token.as_str()) {
                Some(x) => x,
                None => return Err(ClientError::Decode),
            },
            None => return Err(ClientError::Decode),
        };
        Ok(SearchFilter { tags, features, premium, filter_mode })
    }
}

impl SearchOptions {
    /// Writes the options as a JSON object.
    pub fn to_json(&self) -> (r: Json)
        ensures
            r@ == options_json(self@),
    {
        let mut members: Vec<(String, Json)> = Vec::new();
        members.push((String::from_str("query"), Json::optional_text(&self.query)));
        members.push((String::from_str("limit"), Json::Number(self.limit)));
        members.push((String::from_str("offset"), Json::Number(self.offset)));
        members.push((String::from_str("filter"), self.filter.to_json()));
        members.push((String::from_str("sort"), Json::text(self.sort.as_str())));
        members.push((String::from_str("order"), Json::text(self.order.as_str())));
        let r = Json::object(members);
        assert(r@->Object_0 =~= options_json(self@)->Object_0);
        r
    }

    /// Reads search options from a JSON object. Fails with `Decode` where a
    /// member of search options is of another kind, or is missing and not
    /// the query.
    pub fn from_json(v: &Json) -> (r: Result<SearchOptions, ClientError>)
        ensures
            match options_from_json(v@) {
                Some(x) => r matches Ok(read) && read@ == x,
                None => r matches Err(e) && e == ClientError::Decode,
            },
    {
        let query = match read_optional_text(v.get("query")) {
            Some(x) => x,
            None => return Err(ClientError::Decode),
        };
        let limit = match read_number(v.get("limit")) {
            Some(x) => x,
            None => return Err(ClientError::Decode),
        };
        let offset = match read_number(v.get("offset")) {
            Some(x) => x,
            None => return Err(ClientError::Decode),
        };
        let filter = match v.get("filter") {
            Some(member) => match SearchFilter::from_json(member) {
                Ok(x) => x,
                Err(_) => return Err(ClientError::Decode),
            },
            None => return Err(ClientError::Decode),
        };
        let sort = match read_text(v.get("sort")) {
            Some(token) => match SearchSort::from_token(token.as_str()) {
                Some(x) => x,
                None => return Err(ClientError::Decode),
            },
            None => return Err(ClientError::Decode),
        };
        let order = match read_text(v.get("order")) {
            Some(token) => match SearchOrder::from_token(token.as_str()) {
                Some(x) => x,
                None => return Err(ClientError::Decode),
            },
            None => return Err(ClientError::Decode),
        };
        Ok(SearchOptions { query, limit, offset, filter, sort, order })
    }
}

/// The marks of the member names of filters and search options.
proof fn lemma_search_names()
    ensures
        name_mark("tags"@) == (4nat, 't', 'g', 's'),
        name_mark("features"@) == (8nat, 'f', 'u', 's'),
        name_mark("premium"@) == (7nat, 'p', 'm', 'm'),
        name_mark("filterMode"@) == (10nat, 'f', 'r', 'e'),
        name_mark("query"@) == (5nat, 'q', 'e', 'y'),
        name_mark("limit"@) == (5nat, 'l', 'm', 't'),
        name_mark("offset"@) == (6nat, 'o', 's', 't'),
        name_mark("filter"@) == (6nat, 'f', 't', 'r'),
        name_mark("sort"@) == (4nat, 's', 'r', 't'),
        name_mark("order"@) == (5nat, 'o', 'd', 'r'),
{
    reveal_strlit("tags");
    reveal_strlit("features");
    reveal_strlit("premium");
    reveal_strlit("filterMode");
    reveal_strlit("query");
    reveal_strlit("limit");
    reveal_strlit("offset");
    reveal_strlit("filter");
    reveal_strlit("sort");
    reveal_strlit("order");
}

/// Reading a written filter gives the filter back, with the undefined bits
/// of its mask of features cleared; a filter whose mask has none comes back
/// as it was.
pub proof fn lemma_filter_round_trip(f: SearchFilterView)
    ensures
        filter_from_json(filter_json(f)) == Some(
            SearchFilterView { features: truncated(f.features), ..f },
        ),
        f.features & !KNOWN_FEATURE_BITS == 0 ==> filter_from_json(filter_json(f)) == Some(f),
{
    lemma_search_names();
    lemma_tokens_round_trip(SearchSort::Trending, SearchOrder::Descending, f.filter_mode);
    let members = filter_json(f)->Object_0;
    lemma_member_at(members, "tags"@, 0);
    lemma_member_at(members, "features"@, 1);
    lemma_member_at(members, "premium"@, 2);
    lemma_member_at(members, "filterMode"@, 3);
    lemma_read_what_was_written(Seq::empty(), None, f.tags, 0, false);
    let bits = f.features;
    assert(bits & !0xffu64 == 0 ==> bits & 0xffu64 == bits) by (bit_vector);
}

/// Reading written options gives the options back, where the mask of
/// features of their filter has no undefined bit: an absent query stays
/// absent, a query that is there stays as it is.
pub proof fn lemma_options_round_trip(o: SearchOptionsView)
    requires
        o.filter.features & !KNOWN_FEATURE_BITS == 0,
    ensures
        options_from_json(options_json(o)) == Some(o),
{
    lemma_search_names();
    lemma_tokens_round_trip(o.sort, o.order, o.filter.filter_mode);
    lemma_filter_round_trip(o.filter);
    let members = options_json(o)->Object_0;
    lemma_member_at(members, "query"@, 0);
    lemma_member_at(members, "limit"@, 1);
    lemma_member_at(members, "offset"@, 2);
    lemma_member_at(members, "filter"@, 3);
    lemma_member_at(members, "sort"@, 4);
    lemma_member_at(members, "order"@, 5);
    lemma_read_what_was_written(Seq::empty(), o.query, Seq::empty(), 0, false);
}

/// The body of a search carries the wildcard as `query` where the options
/// name no query, and the query of the options, unchanged, where they name
/// one.
pub proof fn lemma_sent_query(o: SearchOptionsView)
    ensures
        get(options_json(sent_options(o)), "query"@) == Some(
            JsonView::Text(
                match o.query {
                    Some(q) => q,
                    None => wildcard(),
                },
            ),
        ),
{
    lemma_member_at(options_json(sent_options(o))->Object_0, "query"@, 0);
}

/// Value independence: options made from a base by replacing the tags of
/// its filter differ from the base in those tags alone, and making one such
/// value does nothing to the base or to a value made from it before.
pub proof fn lemma_tags_leave_other_values_alone(
    base: SearchOptionsView,
    first: Seq<Seq<char>>,
    second: Seq<Seq<char>>,
)
    ensures
        ({
            let a = SearchOptionsView {
                filter: SearchFilterView { tags: first, ..base.filter },
                ..base
            };
            let b = SearchOptionsView {
                filter: SearchFilterView { tags: second, ..base.filter },
                ..base
            };
            &&& a.filter.tags == first
            &&& b.filter.tags == second
            &&& (SearchOptionsView {
                filter: SearchFilterView { tags: base.filter.tags, ..a.filter },
                ..a
            }) == base
            &&& (SearchOptionsView {
                filter: SearchFilterView { tags: base.filter.tags, ..b.filter },
                ..b
            }) == base
            &&& (SearchOptionsView {
                filter: SearchFilterView { tags: first, ..b.filter },
                ..b
            }) == a
        }),
{
}

} // verus!
