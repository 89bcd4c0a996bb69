//! The answer to a search, and the JSON object that stands for one.

use crate::http::ClientError;
use crate::model::hit::{hit_from_json, hit_json, lemma_hit_round_trip, SearchHit, SearchHitView};
use crate::model::tags::{
    as_tag_counts, count_of, distinct_tags, lemma_counts_round_trip, read_tag_counts,
    tag_counts_json, TagCounts, TagDistribution,
};
use crate::wire::{as_number, as_text, get, items_view, json_of, name_mark, read_number, read_text, text};
use crate::wire::{lemma_member_at, lemma_read_what_was_written};
use crate::wire::{Json, JsonView};
use vstd::prelude::*;
use vstd::string::StringExecFns;

verus! {

/// The answer to a search.
#[derive(Clone, Debug, PartialEq, Eq)]
pub struct SearchResults {
    pub hits: Vec<SearchHit>,
    pub limit: u64,
    pub nb_hits: u64,
    pub offset: u64,
    pub query: String,
    /// How many of the bots found carry each tag.
    pub tag_distribution: TagDistribution,
}

/// What a [`SearchResults`] holds, as mathematical values.
pub struct SearchResultsView {
    pub hits: Seq<SearchHitView>,
    pub limit: u64,
    pub nb_hits: u64,
    pub offset: u64,
    pub query: Seq<char>,
    pub tag_distribution: TagCounts,
}

/// The views of a list of hits.
pub open spec fn hits_view(hits: Seq<SearchHit>) -> Seq<SearchHitView> {
    Seq::new(hits.len(), |i: int| hits[i]@)
}

impl View for SearchResults {
    type V = SearchResultsView;

    open spec fn view(&self) -> SearchResultsView {
        SearchResultsView {
            hits: hits_view(self.hits@),
            limit: self.limit,
            nb_hits: self.nb_hits,
            offset: self.offset,
            query: self.query@,
            tag_distribution: self.tag_distribution@,
        }
    }
}

/// Whether every item stands for a hit.
pub open spec fn all_hits(items: Seq<JsonView>) -> bool {
    forall|i: int| 0 <= i < items.len() ==> hit_from_json(#[trigger] items[i]) is Some
}

/// A member that has to be a list of hits.
pub open spec fn as_hits(v: Option<JsonView>) -> Option<Seq<SearchHitView>> {
    match v {
        Some(JsonView::List(items)) => if all_hits(items) {
            Some(Seq::new(items.len(), |i: int| hit_from_json(items[i])->0))
        } else {
            None
        },
        _ => None,
    }
}

/// A list of hits as a JSON value.
pub open spec fn hits_json(hits: Seq<SearchHitView>) -> JsonView {
    JsonView::List(Seq::new(hits.len(), |i: int| hit_json(hits[i])))
}

/// The JSON object that stands for the answer to a search.
pub open spec fn results_json(x: SearchResultsView) -> JsonView {
    JsonView::Object(
        seq![
            ("hits"@, hits_json(x.hits)),
            ("limit"@, JsonView::Number(x.limit)),
            ("nbHits"@, JsonView::Number(x.nb_hits)),
            ("offset"@, JsonView::Number(x.offset)),
            ("query"@, text(x.query)),
            ("tagDistribution"@, tag_counts_json(x.tag_distribution)),
        ],
    )
}

/// Whether `v` is an object with the members of an answer to a search, each
/// of its kind.
pub open spec fn is_results(v: JsonView) -> bool {
    &&& as_hits(get(v, "hits"@)) is Some
    &&& as_number(get(v, "limit"@)) is Some
    &&& as_number(get(v, "nbHits"@)) is Some
    &&& as_number(get(v, "offset"@)) is Some
    &&& as_text(get(v, "query"@)) is Some
    &&& as_tag_counts(get(v, "tagDistribution"@)) is Some
}

/// The answer that `v` stands for, where `v` has the members of one.
pub open spec fn results_from_json(v: JsonView) -> Option<SearchResultsView> {
    if is_results(v) {
        Some(
            SearchResultsView {
                hits: as_hits(get(v, "hits"@))->0,
                limit: as_number(get(v, "limit"@))->0,
                nb_hits: as_number(get(v, "nbHits"@))->0,
                offset: as_number(get(v, "offset"@))->0,
                query: as_text(get(v, "query"@))->0,
                tag_distribution: as_tag_counts(get(v, "tagDistribution"@))->0,
            },
        )
    } else {
        None
    }
}

/// The marks of the member names of an answer to a search.
proof fn lemma_results_names()
    ensures
        name_mark("hits"@) == (4nat, 'h', 't', 's'),
        name_mark("limit"@) == (5nat, 'l', 'm', 't'),
        name_mark("nbHits"@) == (6nat, 'n', 'i', 's'),
        name_mark("offset"@) == (6nat, 'o', 's', 't'),
        name_mark("query"@) == (5nat, 'q', 'e', 'y'),
        name_mark("tagDistribution"@) == (15nat, 't', 'r', 'n'),
{
    reveal_strlit("hits");
    reveal_strlit("limit");
    reveal_strlit("nbHits");
    reveal_strlit("offset");
    reveal_strlit("query");
    reveal_strlit("tagDistribution");
}

/// Reading what was written gives the answer back, where it names no tag
/// twice.
pub proof fn lemma_results_round_trip(x: SearchResultsView)
    requires
        distinct_tags(x.tag_distribution),
    ensures
        results_from_json(results_json(x)) == Some(x),
{
    lemma_results_names();
    let members = results_json(x)->Object_0;
    lemma_member_at(members, "hits"@, 0);
    lemma_member_at(members, "limit"@, 1);
    lemma_member_at(members, "nbHits"@, 2);
    lemma_member_at(members, "offset"@, 3);
    lemma_member_at(members, "query"@, 4);
    lemma_member_at(members, "tagDistribution"@, 5);
    lemma_read_what_was_written(x.query, None, Seq::empty(), 0, false);
    let items = hits_json(x.hits)->List_0;
    assert forall|i: int| 0 <= i < items.len() implies hit_from_json(#[trigger] items[i]) == Some(
        x.hits[i],
    ) by {
        lemma_hit_round_trip(x.hits[i]);
    }
    assert(Seq::new(items.len(), |i: int| hit_from_json(items[i])->0) =~= x.hits);
    lemma_counts_round_trip(x.tag_distribution, x.tag_distribution.len() as int);
    assert(x.tag_distribution.take(x.tag_distribution.len() as int) =~= x.tag_distribution);
}

/// The view of a list of hits whose reading may have failed.
pub open spec fn hits_of(hits: Option<Vec<SearchHit>>) -> Option<Seq<SearchHitView>> {
    match hits {
        Some(hits) => Some(hits_view(hits@)),
        None => None,
    }
}

/// Reads a member that has to be a list of hits.
pub fn read_hits(v: Option<&Json>) -> (r: Option<Vec<SearchHit>>)
    ensures
        hits_of(r) == as_hits(json_of(v)),
{
    match v {
        Some(Json::List(items)) => {
            let ghost shown = v.unwrap()@->List_0;
            let mut hits: Vec<SearchHit> = Vec::new();
            let mut i: usize = 0;
            while i < items.len()
                invariant
                    i <= items.len(),
                    hits@.len() == i,
                    json_of(v) == Some(JsonView::List(shown)),
                    shown =~= items_view(items@),
                    forall|j: int|
                        0 <= j < i ==> hit_from_json(#[trigger] shown[j]) == Some(hits@[j]@),
                decreases items.len() - i,
            {
                match SearchHit::from_json(&items[i]) {
                    Ok(hit) => {
                        hits.push(hit);
                    },
                    Err(_) => {
                        assert(hit_from_json(shown[i as int]) is None);
                        return None;
                    },
                }
                i += 1;
            }
            assert(all_hits(shown));
            assert(hits_view(hits@) =~= Seq::new(
                shown.len(),
                |i: int| hit_from_json(shown[i])->0,
            ));
            Some(hits)
        },
        _ => None,
    }
}

impl SearchResults {
    /// The number of bots found that carry `tag`, where the answer says.
    pub fn tag_count(&self, tag: &str) -> (r: Option<u64>)
        ensures
            r == count_of(self@.tag_distribution, tag@),
    {
        self.tag_distribution.get(tag)
    }

    /// Writes the answer as a JSON object.
    pub fn to_json(&self) -> (r: Json)
        ensures
            r@ == results_json(self@),
    {
        let mut items: Vec<Json> = Vec::new();
        let mut i: usize = 0;
        while i < self.hits.len()
            invariant
                i <= self.hits.len(),
                items@.len() == i,
                forall|j: int| 0 <= j < i ==> (#[trigger] items@[j])@ == hit_json(self.hits@[j]@),
            decreases self.hits.len() - i,
        {
            items.push(self.hits[i].to_json());
            i += 1;
        }
        let hits = Json::list(items);
        assert(hits@->List_0 =~= hits_json(self@.hits)->List_0);

        let distribution = self.tag_distribution.to_json();

        let mut members: Vec<(String, Json)> = Vec::new();
        members.push((String::from_str("hits"), hits));
        members.push((String::from_str("limit"), Json::Number(self.limit)));
        members.push((String::from_str("nbHits"), Json::Number(self.nb_hits)));
        members.push((String::from_str("offset"), Json::Number(self.offset)));
        members.push((String::from_str("query"), Json::text(self.query.as_str())));
        members.push((String::from_str("tagDistribution"), distribution));
        let r = Json::object(members);
        assert(r@->Object_0 =~= results_json(self@)->Object_0);
        r
    }

    /// Reads the answer to a search from a JSON object. Fails with `Decode`
    /// where a member of an answer is missing or of another kind.
    pub fn from_json(v: &Json) -> (r: Result<SearchResults, ClientError>)
        ensures
            match results_from_json(v@) {
                Some(x) => r matches Ok(read) && read@ == x,
                None => r matches Err(e) && e == ClientError::Decode,
            },
    {
        let hits = match read_hits(v.get("hits")) {
            Some(x) => x,
            None => return Err(ClientError::Decode),
        };
        let limit = match read_number(v.get("limit")) {
            Some(x) => x,
            None => return Err(ClientError::Decode),
        };
        let nb_hits = match read_number(v.get("nbHits")) {
            Some(x) => x,
            None => return Err(ClientError::Decode),
        };
        let offset = match read_number(v.get("offset")) {
            Some(x) => x,
            None => return Err(ClientError::Decode),
        };
        let query = match read_text(v.get("query")) {
            Some(x) => x,
            None => return Err(ClientError::Decode),
        };
        let tag_distribution = match read_tag_counts(v.get("tagDistribution")) {
            Some(x) => x,
            None => return Err(ClientError::Decode),
        };
        Ok(SearchResults { hits, limit, nb_hits, offset, query, tag_distribution })
    }
}

} // verus!
