//! JSON values as the service exchanges them: a tree of plain values, the
//! lookup of a member in an object, and readers and writers for the kinds of
//! member that the service's records have.
//!
//! Turning text into such a tree, and back, is left to a JSON parser.

use vstd::prelude::*;
use vstd::string::StringExecFns;

verus! {

/// A JSON value.
#[derive(Debug, PartialEq, Eq, Hash)]
pub enum Json {
    Null,
    Bool(bool),
    /// A whole number from 0 to 2^64 - 1.
    Number(u64),
    /// Any other number: negative, fractional or too large.
    OtherNumber,
    Text(String),
    List(Vec<Json>),
    /// The members of an object in the order in which they were written.
    Object(Vec<(String, Json)>),
}

/// What a [`Json`] value holds, as mathematical values.
pub enum JsonView {
    Null,
    Bool(bool),
    Number(u64),
    OtherNumber,
    Text(Seq<char>),
    List(Seq<JsonView>),
    Object(Seq<(Seq<char>, JsonView)>),
}

/// The members of an object, as mathematical values.
pub type Members = Seq<(Seq<char>, JsonView)>;

/// What `v` holds, as mathematical values.
pub open spec fn value_of(v: Json) -> JsonView
    decreases v,
{
    match v {
        Json::Null => JsonView::Null,
        Json::Bool(b) => JsonView::Bool(b),
        Json::Number(n) => JsonView::Number(n),
        Json::OtherNumber => JsonView::OtherNumber,
        Json::Text(s) => JsonView::Text(s@),
        Json::List(items) => JsonView::List(
            Seq::new(
                items@.len(),
                |i: int|
                    if 0 <= i < items@.len() {
                        value_of(items@[i])
                    } else {
                        JsonView::Null
                    },
            ),
        ),
        Json::Object(members) => JsonView::Object(
            Seq::new(
                members@.len(),
                |i: int|
                    if 0 <= i < members@.len() {
                        (members@[i].0@, value_of(members@[i].1))
                    } else {
                        (Seq::empty(), JsonView::Null)
                    },
            ),
        ),
    }
}

impl View for Json {
    type V = JsonView;

    open spec fn view(&self) -> JsonView {
        value_of(*self)
    }
}

/// The views of the items of a list.
pub open spec fn items_view(items: Seq<Json>) -> Seq<JsonView> {
    Seq::new(items.len(), |i: int| items[i]@)
}

/// The views of the members of an object.
pub open spec fn members_view(members: Seq<(String, Json)>) -> Members {
    Seq::new(members.len(), |i: int| (members[i].0@, members[i].1@))
}

/// The view of a value that may be missing.
pub open spec fn json_of(v: Option<&Json>) -> Option<JsonView> {
    match v {
        Some(v) => Some(v@),
        None => None,
    }
}

/// The view of a text that may be missing.
pub open spec fn chars_of(s: Option<String>) -> Option<Seq<char>> {
    match s {
        Some(s) => Some(s@),
        None => None,
    }
}

/// The view of an optional text whose reading may have failed.
pub open spec fn optional_chars_of(s: Option<Option<String>>) -> Option<Option<Seq<char>>> {
    match s {
        Some(s) => Some(chars_of(s)),
        None => None,
    }
}

/// The view of a list of texts whose reading may have failed.
pub open spec fn texts_of(s: Option<Vec<String>>) -> Option<Seq<Seq<char>>> {
    match s {
        Some(s) => Some(s.deep_view()),
        None => None,
    }
}

/// The first member named `name` among those from position `from` on.
pub open spec fn member_from(members: Members, name: Seq<char>, from: int) -> Option<JsonView>
    decreases members.len() - from,
{
    if from < 0 || from >= members.len() {
        None
    } else if members[from].0 == name {
        Some(members[from].1)
    } else {
        member_from(members, name, from + 1)
    }
}

/// The first member named `name`, if there is one.
pub open spec fn member(members: Members, name: Seq<char>) -> Option<JsonView> {
    member_from(members, name, 0)
}

/// The member `name` of `v`, where `v` is an object that has one.
pub open spec fn get(v: JsonView, name: Seq<char>) -> Option<JsonView> {
    match v {
        JsonView::Object(members) => member(members, name),
        _ => None,
    }
}

/// A member that has to be a text.
pub open spec fn as_text(v: Option<JsonView>) -> Option<Seq<char>> {
    match v {
        Some(JsonView::Text(s)) => Some(s),
        _ => None,
    }
}

/// A member that has to be a whole number that fits 64 bits.
pub open spec fn as_number(v: Option<JsonView>) -> Option<u64> {
    match v {
        Some(JsonView::Number(n)) => Some(n),
        _ => None,
    }
}

/// A member that has to be a truth value.
pub open spec fn as_bool(v: Option<JsonView>) -> Option<bool> {
    match v {
        Some(JsonView::Bool(b)) => Some(b),
        _ => None,
    }
}

/// A member that is a text or absent. A member that is missing or `null`
/// reads as absent; one that is neither text nor `null` does not read.
pub open spec fn as_optional_text(v: Option<JsonView>) -> Option<Option<Seq<char>>> {
    match v {
        None => Some(None),
        Some(JsonView::Null) => Some(None),
        Some(JsonView::Text(s)) => Some(Some(s)),
        _ => None,
    }
}

/// Whether every item is a text.
pub open spec fn all_text(items: Seq<JsonView>) -> bool {
    forall|i: int| 0 <= i < items.len() ==> (#[trigger] items[i]) is Text
}

/// A member that has to be a list of texts.
pub open spec fn as_text_list(v: Option<JsonView>) -> Option<Seq<Seq<char>>> {
    match v {
        Some(JsonView::List(items)) => if all_text(items) {
            Some(Seq::new(items.len(), |i: int| items[i]->Text_0))
        } else {
            None
        },
        _ => None,
    }
}

/// A text as a JSON value.
pub open spec fn text(s: Seq<char>) -> JsonView {
    JsonView::Text(s)
}

/// A text that may be absent as a JSON value: `null` where it is absent.
pub open spec fn optional_text(s: Option<Seq<char>>) -> JsonView {
    match s {
        Some(s) => JsonView::Text(s),
        None => JsonView::Null,
    }
}

/// A list of texts as a JSON value.
pub open spec fn text_list(texts: Seq<Seq<char>>) -> JsonView {
    JsonView::List(Seq::new(texts.len(), |i: int| JsonView::Text(texts[i])))
}

/// Length, first, middle and last character of a name. Names with different
/// marks are different names.
pub open spec fn name_mark(name: Seq<char>) -> (nat, char, char, char) {
    (name.len(), name[0], name[name.len() as int / 2], name[name.len() - 1])
}

/// The member at position `at` is the one that a lookup of its name finds,
/// where no member before it has that name.
pub proof fn lemma_member_at(members: Members, name: Seq<char>, at: int)
    requires
        0 <= at < members.len(),
        members[at].0 == name,
        forall|j: int| 0 <= j < at ==> (#[trigger] members[j]).0 != name,
    ensures
        member(members, name) == Some(members[at].1),
{
    lemma_member_from(members, name, 0, at);
}

proof fn lemma_member_from(members: Members, name: Seq<char>, from: int, at: int)
    requires
        0 <= from <= at < members.len(),
        members[at].0 == name,
        forall|j: int| from <= j < at ==> (#[trigger] members[j]).0 != name,
    ensures
        member_from(members, name, from) == Some(members[at].1),
    decreases at - from,
{
    if from < at {
        assert(members[from].0 != name);
        lemma_member_from(members, name, from + 1, at);
    }
}

/// A lookup finds nothing where no member has the name.
pub proof fn lemma_member_absent(members: Members, name: Seq<char>)
    requires
        forall|j: int| 0 <= j < members.len() ==> (#[trigger] members[j]).0 != name,
    ensures
        member(members, name) is None,
{
    lemma_no_member_from(members, name, 0);
}

proof fn lemma_no_member_from(members: Members, name: Seq<char>, from: int)
    requires
        0 <= from,
        forall|j: int| from <= j < members.len() ==> (#[trigger] members[j]).0 != name,
    ensures
        member_from(members, name, from) is None,
    decreases members.len() - from,
{
    if from < members.len() {
        assert(members[from].0 != name);
        lemma_no_member_from(members, name, from + 1);
    }
}

/// Reading a written text gives the text back; so for the other kinds of
/// member.
pub proof fn lemma_read_what_was_written(
    s: Seq<char>,
    o: Option<Seq<char>>,
    texts: Seq<Seq<char>>,
    n: u64,
    b: bool,
)
    ensures
        as_text(Some(text(s))) == Some(s),
        as_optional_text(Some(optional_text(o))) == Some(o),
        as_text_list(Some(text_list(texts))) == Some(texts),
        as_number(Some(JsonView::Number(n))) == Some(n),
        as_bool(Some(JsonView::Bool(b))) == Some(b),
{
    let items = text_list(texts)->List_0;
    assert(all_text(items));
    assert(Seq::new(items.len(), |i: int| items[i]->Text_0) =~= texts);
}

impl Json {
    /// Makes a list of `items`.
    pub fn list(items: Vec<Json>) -> (r: Json)
        ensures
            r@ == JsonView::List(items_view(items@)),
    {
        let r = Json::List(items);
        assert(r@->List_0 =~= items_view(items@));
        r
    }

    /// Makes an object of `members`.
    pub fn object(members: Vec<(String, Json)>) -> (r: Json)
        ensures
            r@ == JsonView::Object(members_view(members@)),
    {
        let r = Json::Object(members);
        assert(r@->Object_0 =~= members_view(members@));
        r
    }

    /// Makes a text.
    pub fn text(s: &str) -> (r: Json)
        ensures
            r@ == text(s@),
    {
        Json::Text(String::from_str(s))
    }

    /// Makes a text, or `null` of an absent one.
    pub fn optional_text(s: &Option<String>) -> (r: Json)
        ensures
            r@ == optional_text(chars_of(*s)),
    {
        match s {
            Some(s) => Json::Text(s.clone()),
            None => Json::Null,
        }
    }

    /// Makes a list of texts.
    pub fn text_list(texts: &Vec<String>) -> (r: Json)
        ensures
            r@ == text_list(texts.deep_view()),
    {
        let mut items: Vec<Json> = Vec::new();
        let mut i: usize = 0;
        while i < texts.len()
            invariant
                i <= texts.len(),
                items@.len() == i,
                forall|j: int| 0 <= j < i ==> (#[trigger] items@[j])@ == JsonView::Text(texts@[j]@),
            decreases texts.len() - i,
        {
            items.push(Json::Text(texts[i].clone()));
            i += 1;
        }
        let r = Json::List(items);
        assert(r@->List_0 =~= text_list(texts.deep_view())->List_0);
        r
    }

    /// The first member named `name`, where the value is an object that has
    /// one.
    pub fn get(&self, name: &str) -> (r: Option<&Json>)
        ensures
            json_of(r) == get(self@, name@),
    {
        match self {
            Json::Object(members) => {
                let key = String::from_str(name);
                let ghost shown = self@->Object_0;
                let mut i: usize = 0;
                while i < members.len()
                    invariant
                        i <= members.len(),
                        key@ == name@,
                        self@ == JsonView::Object(shown),
                        shown =~= members_view(members@),
                        member(shown, name@) == member_from(shown, name@, i as int),
                    decreases members.len() - i,
                {
                    if members[i].0 == key {
                        return Some(&members[i].1);
                    }
                    i += 1;
                }
                None
            },
            _ => None,
        }
    }
}

/// Reads a member that has to be a text.
pub fn read_text(v: Option<&Json>) -> (r: Option<String>)
    ensures
        chars_of(r) == as_text(json_of(v)),
{
    match v {
        Some(Json::Text(s)) => Some(s.clone()),
        _ => None,
    }
}

/// Reads a member that has to be a whole number that fits 64 bits.
pub fn read_number(v: Option<&Json>) -> (r: Option<u64>)
    ensures
        r == as_number(json_of(v)),
{
    match v {
        Some(Json::Number(n)) => Some(*n),
        _ => None,
    }
}

/// Reads a member that has to be a truth value.
pub fn read_bool(v: Option<&Json>) -> (r: Option<bool>)
    ensures
        r == as_bool(json_of(v)),
{
    match v {
        Some(Json::Bool(b)) => Some(*b),
        _ => None,
    }
}

/// Reads a member that is a text or absent.
pub fn read_optional_text(v: Option<&Json>) -> (r: Option<Option<String>>)
    ensures
        optional_chars_of(r) == as_optional_text(json_of(v)),
{
    match v {
        None => Some(None),
        Some(Json::Null) => Some(None),
        Some(Json::Text(s)) => Some(Some(s.clone())),
        _ => None,
    }
}

/// Reads a member that has to be a list of texts.
pub fn read_text_list(v: Option<&Json>) -> (r: Option<Vec<String>>)
    ensures
        texts_of(r) == as_text_list(json_of(v)),
{
    match v {
        Some(Json::List(items)) => {
            let ghost shown = v.unwrap()@->List_0;
            let mut texts: Vec<String> = Vec::new();
            let mut i: usize = 0;
            while i < items.len()
                invariant
                    i <= items.len(),
                    texts@.len() == i,
                    json_of(v) == Some(JsonView::List(shown)),
                    shown =~= items_view(items@),
                    forall|j: int| 0 <= j < i ==> (#[trigger] shown[j]) == JsonView::Text(texts@[j]@),
                decreases items.len() - i,
            {
                match &items[i] {
                    Json::Text(s) => {
                        texts.push(s.clone());
                    },
                    _ => {
                        assert(!(shown[i as int] is Text));
                        return None;
                    },
                }
                i += 1;
            }
            assert(all_text(shown));
            assert(texts.deep_view() =~= Seq::new(shown.len(), |i: int| shown[i]->Text_0));
            Some(texts)
        },
        _ => None,
    }
}

} // verus!
