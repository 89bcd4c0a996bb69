//! One bot found by a search, and the JSON object that stands for one.

use crate::http::ClientError;
use crate::wire::{
    as_number, as_text, as_text_list, get, name_mark, read_number, read_text, read_text_list,
    text, text_list,
};
use crate::wire::{lemma_member_at, lemma_read_what_was_written};
use crate::wire::{Json, JsonView};
use vstd::prelude::*;
use vstd::string::StringExecFns;

verus! {

/// One bot found by a search. Several fields that look numeric arrive as
/// text and are kept as text.
#[derive(Clone, Debug, PartialEq, Eq, Hash)]
pub struct SearchHit {
    pub avatar: String,
    pub brief_description: String,
    pub co_owner_ids: Vec<String>,
    pub created_on: String,
    pub discriminator: u64,
    pub features: String,
    pub flags: String,
    pub guild_count: u64,
    pub id: String,
    pub invite_url: String,
    pub owner_id: String,
    pub prefix: String,
    pub tags: String,
    pub username: String,
    pub votes: String,
}

/// What a [`SearchHit`] holds, as mathematical values.
pub struct SearchHitView {
    pub avatar: Seq<char>,
    pub brief_description: Seq<char>,
    pub co_owner_ids: Seq<Seq<char>>,
    pub created_on: Seq<char>,
    pub discriminator: u64,
    pub features: Seq<char>,
    pub flags: Seq<char>,
    pub guild_count: u64,
    pub id: Seq<char>,
    pub invite_url: Seq<char>,
    pub owner_id: Seq<char>,
    pub prefix: Seq<char>,
    pub tags: Seq<char>,
    pub username: Seq<char>,
    pub votes: Seq<char>,
}

impl View for SearchHit {
    type V = SearchHitView;

    open spec fn view(&self) -> SearchHitView {
        SearchHitView {
            avatar: self.avatar@,
            brief_description: self.brief_description@,
            co_owner_ids: self.co_owner_ids.deep_view(),
            created_on: self.created_on@,
            discriminator: self.discriminator,
            features: self.features@,
            flags: self.flags@,
            guild_count: self.guild_count,
            id: self.id@,
            invite_url: self.invite_url@,
            owner_id: self.owner_id@,
            prefix: self.prefix@,
            tags: self.tags@,
            username: self.username@,
            votes: self.votes@,
        }
    }
}

/// The JSON object that stands for a search hit.
pub open spec fn hit_json(x: SearchHitView) -> JsonView {
    JsonView::Object(
        seq![
            ("avatar"@, text(x.avatar)),
            ("briefDescription"@, text(x.brief_description)),
            ("coOwnerIds"@, text_list(x.co_owner_ids)),
            ("createdOn"@, text(x.created_on)),
            ("discriminator"@, JsonView::Number(x.discriminator)),
            ("features"@, text(x.features)),
            ("flags"@, text(x.flags)),
            ("guildCount"@, JsonView::Number(x.guild_count)),
            ("id"@, text(x.id)),
            ("inviteUrl"@, text(x.invite_url)),
            ("ownerId"@, text(x.owner_id)),
            ("prefix"@, text(x.prefix)),
            ("tags"@, text(x.tags)),
            ("username"@, text(x.username)),
            ("votes"@, text(x.votes)),
        ],
    )
}

/// Whether `v` is an object with the members of a search hit, each of its kind.
/// Members that a search hit does not have do not matter.
pub open spec fn is_hit(v: JsonView) -> bool {
    &&& as_text(get(v, "avatar"@)) is Some
    &&& as_text(get(v, "briefDescription"@)) is Some
    &&& as_text_list(get(v, "coOwnerIds"@)) is Some
    &&& as_text(get(v, "createdOn"@)) is Some
    &&& as_number(get(v, "discriminator"@)) is Some
    &&& as_text(get(v, "features"@)) is Some
    &&& as_text(get(v, "flags"@)) is Some
    &&& as_number(get(v, "guildCount"@)) is Some
    &&& as_text(get(v, "id"@)) is Some
    &&& as_text(get(v, "inviteUrl"@)) is Some
    &&& as_text(get(v, "ownerId"@)) is Some
    &&& as_text(get(v, "prefix"@)) is Some
    &&& as_text(get(v, "tags"@)) is Some
    &&& as_text(get(v, "username"@)) is Some
    &&& as_text(get(v, "votes"@)) is Some
}

/// The hit that `v` stands for, where `v` has the members of one.
pub open spec fn hit_from_json(v: JsonView) -> Option<SearchHitView> {
    if is_hit(v) {
        Some(
            SearchHitView {
                avatar: as_text(get(v, "avatar"@))->0,
                brief_description: as_text(get(v, "briefDescription"@))->0,
                co_owner_ids: as_text_list(get(v, "coOwnerIds"@))->0,
                created_on: as_text(get(v, "createdOn"@))->0,
                discriminator: as_number(get(v, "discriminator"@))->0,
                features: as_text(get(v, "features"@))->0,
                flags: as_text(get(v, "flags"@))->0,
                guild_count: as_number(get(v, "guildCount"@))->0,
                id: as_text(get(v, "id"@))->0,
                invite_url: as_text(get(v, "inviteUrl"@))->0,
                owner_id: as_text(get(v, "ownerId"@))->0,
                prefix: as_text(get(v, "prefix"@))->0,
                tags: as_text(get(v, "tags"@))->0,
                username: as_text(get(v, "username"@))->0,
                votes: as_text(get(v, "votes"@))->0,
            },
        )
    } else {
        None
    }
}

impl SearchHit {
    /// Writes the hit as a JSON object.
    pub fn to_json(&self) -> (r: Json)
        ensures
            r@ == hit_json(self@),
    {
        let mut members: Vec<(String, Json)> = Vec::new();
        members.push((String::from_str("avatar"), Json::text(self.avatar.as_str())));
        members.push((String::from_str("briefDescription"), Json::text(self.brief_description.as_str())));
        members.push((String::from_str("coOwnerIds"), Json::text_list(&self.co_owner_ids)));
        members.push((String::from_str("createdOn"), Json::text(self.created_on.as_str())));
        members.push((String::from_str("discriminator"), Json::Number(self.discriminator)));
        members.push((String::from_str("features"), Json::text(self.features.as_str())));
        members.push((String::from_str("flags"), Json::text(self.flags.as_str())));
        members.push((String::from_str("guildCount"), Json::Number(self.guild_count)));
        members.push((String::from_str("id"), Json::text(self.id.as_str())));
        members.push((String::from_str("inviteUrl"), Json::text(self.invite_url.as_str())));
        members.push((String::from_str("ownerId"), Json::text(self.owner_id.as_str())));
        members.push((String::from_str("prefix"), Json::text(self.prefix.as_str())));
        members.push((String::from_str("tags"), Json::text(self.tags.as_str())));
        members.push((String::from_str("username"), Json::text(self.username.as_str())));
        members.push((String::from_str("votes"), Json::text(self.votes.as_str())));
        let r = Json::object(members);
        assert(r@->Object_0 =~= hit_json(self@)->Object_0);
        r
    }

    /// Reads a search hit from a JSON object. Fails with `Decode` where a member of
    /// a search hit is of another kind, or is missing and not optional.
    pub fn from_json(v: &Json) -> (r: Result<SearchHit, ClientError>)
        ensures
            match hit_from_json(v@) {
                Some(x) => r matches Ok(read) && read@ == x,
                None => r matches Err(e) && e == ClientError::Decode,
            },
    {
        let avatar = match read_text(v.get("avatar")) {
            Some(x) => x,
            None => return Err(ClientError::Decode),
        };
        let brief_description = match read_text(v.get("briefDescription")) {
            Some(x) => x,
            None => return Err(ClientError::Decode),
        };
        let co_owner_ids = match read_text_list(v.get("coOwnerIds")) {
            Some(x) => x,
            None => return Err(ClientError::Decode),
        };
        let created_on = match read_text(v.get("createdOn")) {
            Some(x) => x,
            None => return Err(ClientError::Decode),
        };
        let discriminator = match read_number(v.get("discriminator")) {
            Some(x) => x,
            None => return Err(ClientError::Decode),
        };
        let features = match read_text(v.get("features")) {
            Some(x) => x,
            None => return Err(ClientError::Decode),
        };
        let flags = match read_text(v.get("flags")) {
            Some(x) => x,
            None => return Err(ClientError::Decode),
        };
        let guild_count = match read_number(v.get("guildCount")) {
            Some(x) => x,
            None => return Err(ClientError::Decode),
        };
        let id = match read_text(v.get("id")) {
            Some(x) => x,
            None => return Err(ClientError::Decode),
        };
        let invite_url = match read_text(v.get("inviteUrl")) {
            Some(x) => x,
            None => return Err(ClientError::Decode),
        };
        let owner_id = match read_text(v.get("ownerId")) {
            Some(x) => x,
            None => return Err(ClientError::Decode),
        };
        let prefix = match read_text(v.get("prefix")) {
            Some(x) => x,
            None => return Err(ClientError::Decode),
        };
        let tags = match read_text(v.get("tags")) {
            Some(x) => x,
            None => return Err(ClientError::Decode),
        };
        let username = match read_text(v.get("username")) {
            Some(x) => x,
            None => return Err(ClientError::Decode),
        };
        let votes = match read_text(v.get("votes")) {
            Some(x) => x,
            None => return Err(ClientError::Decode),
        };
        Ok(
            SearchHit {
                avatar,
                brief_description,
                co_owner_ids,
                created_on,
                discriminator,
                features,
                flags,
                guild_count,
                id,
                invite_url,
                owner_id,
                prefix,
                tags,
                username,
                votes,
            },
        )
    }
}

/// The marks of the member names of a search hit: no two are alike.
proof fn lemma_hit_names()
    ensures
        name_mark("avatar"@) == (6nat, 'a', 't', 'r'),
        name_mark("briefDescription"@) == (16nat, 'b', 'c', 'n'),
        name_mark("coOwnerIds"@) == (10nat, 'c', 'e', 's'),
        name_mark("createdOn"@) == (9nat, 'c', 't', 'n'),
        name_mark("discriminator"@) == (13nat, 'd', 'm', 'r'),
        name_mark("features"@) == (8nat, 'f', 'u', 's'),
        name_mark("flags"@) == (5nat, 'f', 'a', 's'),
        name_mark("guildCount"@) == (10nat, 'g', 'C', 't'),
        name_mark("id"@) == (2nat, 'i', 'd', 'd'),
        name_mark("inviteUrl"@) == (9nat, 'i', 't', 'l'),
        name_mark("ownerId"@) == (7nat, 'o', 'e', 'd'),
        name_mark("prefix"@) == (6nat, 'p', 'f', 'x'),
        name_mark("tags"@) == (4nat, 't', 'g', 's'),
        name_mark("username"@) == (8nat, 'u', 'n', 'e'),
        name_mark("votes"@) == (5nat, 'v', 't', 's'),
{
    reveal_strlit("avatar");
    reveal_strlit("briefDescription");
    reveal_strlit("coOwnerIds");
    reveal_strlit("createdOn");
    reveal_strlit("discriminator");
    reveal_strlit("features");
    reveal_strlit("flags");
    reveal_strlit("guildCount");
    reveal_strlit("id");
    reveal_strlit("inviteUrl");
    reveal_strlit("ownerId");
    reveal_strlit("prefix");
    reveal_strlit("tags");
    reveal_strlit("username");
    reveal_strlit("votes");
}

/// Reading what was written gives the hit back: every member as it was,
/// an absent one absent.
pub proof fn lemma_hit_round_trip(x: SearchHitView)
    ensures
        hit_from_json(hit_json(x)) == Some(x),
{
    lemma_hit_names();
    let members = hit_json(x)->Object_0;
    lemma_member_at(members, "avatar"@, 0);
    lemma_member_at(members, "briefDescription"@, 1);
    lemma_member_at(members, "coOwnerIds"@, 2);
    lemma_member_at(members, "createdOn"@, 3);
    lemma_member_at(members, "discriminator"@, 4);
    lemma_member_at(members, "features"@, 5);
    lemma_member_at(members, "flags"@, 6);
    lemma_member_at(members, "guildCount"@, 7);
    lemma_member_at(members, "id"@, 8);
    lemma_member_at(members, "inviteUrl"@, 9);
    lemma_member_at(members, "ownerId"@, 10);
    lemma_member_at(members, "prefix"@, 11);
    lemma_member_at(members, "tags"@, 12);
    lemma_member_at(members, "username"@, 13);
    lemma_member_at(members, "votes"@, 14);
    lemma_read_what_was_written(x.avatar, None, Seq::empty(), 0, false);
    lemma_read_what_was_written(x.brief_description, None, Seq::empty(), 0, false);
    lemma_read_what_was_written(Seq::empty(), None, x.co_owner_ids, 0, false);
    lemma_read_what_was_written(x.created_on, None, Seq::empty(), 0, false);
    lemma_read_what_was_written(x.features, None, Seq::empty(), 0, false);
    lemma_read_what_was_written(x.flags, None, Seq::empty(), 0, false);
    lemma_read_what_was_written(x.id, None, Seq::empty(), 0, false);
    lemma_read_what_was_written(x.invite_url, None, Seq::empty(), 0, false);
    lemma_read_what_was_written(x.owner_id, None, Seq::empty(), 0, false);
    lemma_read_what_was_written(x.prefix, None, Seq::empty(), 0, false);
    lemma_read_what_was_written(x.tags, None, Seq::empty(), 0, false);
    lemma_read_what_was_written(x.username, None, Seq::empty(), 0, false);
    lemma_read_what_was_written(x.votes, None, Seq::empty(), 0, false);
}


} // verus!
