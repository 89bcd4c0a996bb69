//! How many of the bots found carry each tag: a list of tags with their
//! counts in which no tag occurs twice, and the JSON object that stands for
//! one.
//!
//! The service sends the distribution as an object from tag to count. Where
//! the object names a tag more than once, the count written last is kept.

use crate::wire::{json_of, members_view};
use crate::wire::{Json, JsonView, Members};
use vstd::prelude::*;
use vstd::string::StringExecFns;

verus! {

/// Tags with their counts, as mathematical values.
pub type TagCounts = Seq<(Seq<char>, u64)>;

/// The views of a list of tags with their counts.
pub open spec fn counts_view(counts: Seq<(String, u64)>) -> TagCounts {
    Seq::new(counts.len(), |i: int| (counts[i].0@, counts[i].1))
}

/// No tag occurs twice.
pub open spec fn distinct_tags(counts: TagCounts) -> bool {
    forall|i: int, j: int|
        0 <= i < j < counts.len() ==> (#[trigger] counts[i]).0 != (#[trigger] counts[j]).0
}

/// The first position from `from` on at which `tag` stands.
pub open spec fn position_from(counts: TagCounts, tag: Seq<char>, from: int) -> Option<int>
    decreases counts.len() - from,
{
    if from < 0 || from >= counts.len() {
        None
    } else if counts[from].0 == tag {
        Some(from)
    } else {
        position_from(counts, tag, from + 1)
    }
}

/// The first position at which `tag` stands.
pub open spec fn position(counts: TagCounts, tag: Seq<char>) -> Option<int> {
    position_from(counts, tag, 0)
}

/// The count of `tag`, where it has one.
pub open spec fn count_of(counts: TagCounts, tag: Seq<char>) -> Option<u64> {
    match position(counts, tag) {
        Some(i) => Some(counts[i].1),
        None => None,
    }
}

/// `counts` with the count `n` for `tag`: in place of the count that the
/// tag had, or at the end where it had none.
pub open spec fn put(counts: TagCounts, tag: Seq<char>, n: u64) -> TagCounts {
    match position(counts, tag) {
        Some(i) => counts.update(i, (tag, n)),
        None => counts.push((tag, n)),
    }
}

/// The counts that the first `k` members give, put one after the other;
/// `None` where one of them is no whole number that fits 64 bits.
pub open spec fn counts_upto(members: Members, k: int) -> Option<TagCounts>
    decreases k,
{
    if k <= 0 {
        Some(Seq::empty())
    } else {
        match (counts_upto(members, k - 1), members[k - 1].1) {
            (Some(counts), JsonView::Number(n)) => Some(put(counts, members[k - 1].0, n)),
            _ => None,
        }
    }
}

/// A member that has to be an object from tag to count.
pub open spec fn as_tag_counts(v: Option<JsonView>) -> Option<TagCounts> {
    match v {
        Some(JsonView::Object(members)) => counts_upto(members, members.len() as int),
        _ => None,
    }
}

/// Tags with their counts as a JSON object.
pub open spec fn tag_counts_json(counts: TagCounts) -> JsonView {
    JsonView::Object(Seq::new(counts.len(), |i: int| (counts[i].0, JsonView::Number(counts[i].1))))
}

/// Tags with their counts. No tag occurs twice.
#[derive(Debug, PartialEq, Eq)]
pub struct TagDistribution {
    counts: Vec<(String, u64)>,
}

impl View for TagDistribution {
    type V = TagCounts;

    /// The tags with their counts, in the order in which they were put.
    closed spec fn view(&self) -> TagCounts {
        counts_view(self.counts@)
    }
}

/// The view of a distribution whose reading may have failed.
pub open spec fn distribution_of(d: Option<TagDistribution>) -> Option<TagCounts> {
    match d {
        Some(d) => Some(d@),
        None => None,
    }
}

/// Where a position is found, the tag stands there and nowhere before;
/// where none is found, the tag stands nowhere.
pub proof fn lemma_position(counts: TagCounts, tag: Seq<char>, from: int)
    requires
        0 <= from,
    ensures
        match position_from(counts, tag, from) {
            Some(i) => {
                &&& from <= i < counts.len()
                &&& counts[i].0 == tag
                &&& forall|j: int| from <= j < i ==> (#[trigger] counts[j]).0 != tag
            },
            None => forall|j: int| from <= j < counts.len() ==> (#[trigger] counts[j]).0 != tag,
        },
    decreases counts.len() - from,
{
    if from < counts.len() && counts[from].0 != tag {
        lemma_position(counts, tag, from + 1);
    }
}

/// Putting a count keeps the tags distinct.
pub proof fn lemma_put_keeps_tags_distinct(counts: TagCounts, tag: Seq<char>, n: u64)
    requires
        distinct_tags(counts),
    ensures
        distinct_tags(put(counts, tag, n)),
{
    lemma_position(counts, tag, 0);
    let after = put(counts, tag, n);
    assert forall|i: int, j: int| 0 <= i < j < after.len() implies (#[trigger] after[i]).0 != (
    #[trigger] after[j]).0 by {
        if position(counts, tag) is Some {
            assert(after[i].0 == counts[i].0);
            assert(after[j].0 == counts[j].0);
        } else if j < counts.len() {
            assert(after[i] == counts[i]);
            assert(after[j] == counts[j]);
        } else {
            assert(after[i] == counts[i]);
        }
    }
}

/// The counts read from an object name no tag twice.
pub proof fn lemma_counts_are_distinct(members: Members, k: int)
    ensures
        counts_upto(members, k) matches Some(counts) ==> distinct_tags(counts),
    decreases k,
{
    if k > 0 {
        lemma_counts_are_distinct(members, k - 1);
        match (counts_upto(members, k - 1), members[k - 1].1) {
            (Some(counts), JsonView::Number(n)) => {
                lemma_put_keeps_tags_distinct(counts, members[k - 1].0, n);
            },
            _ => {},
        }
    }
}

/// Once a member is no count, reading further members does not mend it.
proof fn lemma_counts_stay_refused(members: Members, k: int, upto: int)
    requires
        0 <= k <= upto,
        counts_upto(members, k) is None,
    ensures
        counts_upto(members, upto) is None,
    decreases upto - k,
{
    if k < upto {
        lemma_counts_stay_refused(members, k, upto - 1);
    }
}

/// Reading the object written for distinct tags gives them back in order.
pub proof fn lemma_counts_round_trip(counts: TagCounts, k: int)
    requires
        distinct_tags(counts),
        0 <= k <= counts.len(),
    ensures
        counts_upto(tag_counts_json(counts)->Object_0, k) == Some(counts.take(k)),
    decreases k,
{
    let members = tag_counts_json(counts)->Object_0;
    if k > 0 {
        lemma_counts_round_trip(counts, k - 1);
        let before = counts.take(k - 1);
        lemma_position(before, counts[k - 1].0, 0);
        match position(before, counts[k - 1].0) {
            Some(i) => {
                assert(before[i] == counts[i]);
                assert(counts[i].0 != counts[k - 1].0);
            },
            None => {},
        }
        assert(before.push(counts[k - 1]) =~= counts.take(k));
    } else {
        assert(counts.take(0) =~= Seq::empty());
    }
}

/// The position at which `tag` stands in `counts`.
fn find_tag(counts: &Vec<(String, u64)>, tag: &String) -> (r: Option<usize>)
    ensures
        match r {
            Some(i) => position(counts_view(counts@), tag@) == Some(i as int),
            None => position(counts_view(counts@), tag@) is None,
        },
{
    let ghost shown = counts_view(counts@);
    let mut i: usize = 0;
    while i < counts.len()
        invariant
            i <= counts.len(),
            shown == counts_view(counts@),
            position(shown, tag@) == position_from(shown, tag@, i as int),
        decreases counts.len() - i,
    {
        if counts[i].0 == *tag {
            return Some(i);
        }
        i += 1;
    }
    None
}

/// Puts the count `n` for `tag` into `counts`.
fn put_tag(counts: &mut Vec<(String, u64)>, tag: String, n: u64)
    ensures
        counts_view(final(counts)@) == put(counts_view(old(counts)@), tag@, n),
{
    let ghost before = counts_view(counts@);
    proof {
        lemma_position(before, tag@, 0);
    }
    match find_tag(counts, &tag) {
        Some(i) => {
            counts[i] = (tag, n);
            assert(counts_view(counts@) =~= before.update(i as int, (tag@, n)));
        },
        None => {
            counts.push((tag, n));
            assert(counts_view(counts@) =~= before.push((tag@, n)));
        },
    }
}

impl Clone for TagDistribution {
    /// A second distribution that holds the same tags and counts.
    fn clone(&self) -> (r: TagDistribution)
        ensures
            r@ == self@,
    {
        proof {
            use_type_invariant(self);
        }
        let mut counts: Vec<(String, u64)> = Vec::new();
        let mut i: usize = 0;
        while i < self.counts.len()
            invariant
                i <= self.counts.len(),
                counts@.len() == i,
                forall|j: int|
                    0 <= j < i ==> (#[trigger] counts@[j]).0@ == self.counts@[j].0@ && counts@[j].1
                        == self.counts@[j].1,
            decreases self.counts.len() - i,
        {
            counts.push((self.counts[i].0.clone(), self.counts[i].1));
            i += 1;
        }
        assert(counts_view(counts@) =~= counts_view(self.counts@));
        TagDistribution { counts }
    }
}

impl TagDistribution {
    #[verifier::type_invariant]
    spec fn no_tag_twice(self) -> bool {
        distinct_tags(counts_view(self.counts@))
    }

    /// The distribution without any tag.
    pub fn new() -> (r: TagDistribution)
        ensures
            r@ == Seq::<(Seq<char>, u64)>::empty(),
    {
        let counts: Vec<(String, u64)> = Vec::new();
        assert(counts_view(counts@) =~= Seq::empty());
        TagDistribution { counts }
    }

    /// The same distribution with the count `n` for `tag`: in place of the
    /// count that the tag had, or at the end where it had none.
    pub fn insert(self, tag: String, n: u64) -> (r: TagDistribution)
        ensures
            r@ == put(self@, tag@, n),
    {
        proof {
            use_type_invariant(&self);
            lemma_put_keeps_tags_distinct(self@, tag@, n);
        }
        let mut counts = self.counts;
        put_tag(&mut counts, tag, n);
        TagDistribution { counts }
    }

    /// The count of `tag`, where it has one.
    pub fn get(&self, tag: &str) -> (r: Option<u64>)
        ensures
            r == count_of(self@, tag@),
    {
        let key = String::from_str(tag);
        proof {
            lemma_position(self@, tag@, 0);
        }
        match find_tag(&self.counts, &key) {
            Some(i) => Some(self.counts[i].1),
            None => None,
        }
    }

    /// The number of tags.
    pub fn len(&self) -> (r: usize)
        ensures
            r == self@.len(),
    {
        self.counts.len()
    }

    /// The tags with their counts, in the order in which they were put. No
    /// tag occurs twice among them.
    pub fn pairs(&self) -> (r: &Vec<(String, u64)>)
        ensures
            counts_view(r@) == self@,
            distinct_tags(self@),
    {
        proof {
            use_type_invariant(self);
        }
        &self.counts
    }

    /// Writes the distribution as a JSON object from tag to count.
    pub fn to_json(&self) -> (r: Json)
        ensures
            r@ == tag_counts_json(self@),
    {
        let mut pairs: Vec<(String, Json)> = Vec::new();
        let mut k: usize = 0;
        while k < self.counts.len()
            invariant
                k <= self.counts.len(),
                pairs@.len() == k,
                forall|j: int|
                    0 <= j < k ==> (#[trigger] pairs@[j]).0@ == self.counts@[j].0@ && pairs@[j].1@
                        == JsonView::Number(self.counts@[j].1),
            decreases self.counts.len() - k,
        {
            pairs.push((self.counts[k].0.clone(), Json::Number(self.counts[k].1)));
            k += 1;
        }
        let r = Json::object(pairs);
        assert(r@->Object_0 =~= tag_counts_json(self@)->Object_0);
        r
    }
}

/// Reads a member that has to be an object from tag to count. Where the
/// object names a tag more than once, the count written last is kept.
pub fn read_tag_counts(v: Option<&Json>) -> (r: Option<TagDistribution>)
    ensures
        distribution_of(r) == as_tag_counts(json_of(v)),
{
    match v {
        Some(Json::Object(members)) => {
            let ghost shown = v.unwrap()@->Object_0;
            let mut counts: Vec<(String, u64)> = Vec::new();
            let mut i: usize = 0;
            assert(counts_view(counts@) =~= Seq::empty());
            while i < members.len()
                invariant
                    i <= members.len(),
                    json_of(v) == Some(JsonView::Object(shown)),
                    shown =~= members_view(members@),
                    counts_upto(shown, i as int) == Some(counts_view(counts@)),
                decreases members.len() - i,
            {
                match &members[i].1 {
                    Json::Number(n) => {
                        put_tag(&mut counts, members[i].0.clone(), *n);
                    },
                    _ => {
                        proof {
                            assert(!(shown[i as int].1 is Number));
                            assert(counts_upto(shown, i + 1) is None);
                            lemma_counts_stay_refused(shown, i + 1, shown.len() as int);
                        }
                        return None;
                    },
                }
                i += 1;
            }
            proof {
                lemma_counts_are_distinct(shown, shown.len() as int);
            }
            Some(TagDistribution { counts })
        },
        _ => None,
    }
}

} // verus!
