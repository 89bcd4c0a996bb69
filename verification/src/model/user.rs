//! A user of the service, and the JSON object that stands for one.

use crate::http::ClientError;
use crate::wire::{
    as_number, as_optional_text, as_text, as_text_list, chars_of, get, name_mark, optional_text,
    read_number, read_optional_text, read_text, read_text_list, text, text_list,
};
use crate::wire::{lemma_member_at, lemma_read_what_was_written};
use crate::wire::{Json, JsonView};
use vstd::prelude::*;
use vstd::string::StringExecFns;

verus! {

/// A user of the service.
#[derive(Clone, Debug, PartialEq, Eq, Hash)]
pub struct User {
    pub avatar: Option<String>,
    pub banner: Option<String>,
    pub bio: Option<String>,
    pub bots: Vec<String>,
    pub claps: u64,
    pub co_owned_bots: Vec<String>,
    pub co_owned_guilds: Vec<String>,
    pub created_on: String,
    /// Discriminators are being phased out upstream: expect zero, and do not
    /// rely on the value.
    pub discriminator: u64,
    pub display_name: Option<String>,
    pub flags: u64,
    pub guilds: Vec<String>,
    pub id: String,
    pub packs: Vec<String>,
    pub slug: Option<String>,
    pub username: String,
}

/// What a [`User`] holds, as mathematical values.
pub struct UserView {
    pub avatar: Option<Seq<char>>,
    pub banner: Option<Seq<char>>,
    pub bio: Option<Seq<char>>,
    pub bots: Seq<Seq<char>>,
    pub claps: u64,
    pub co_owned_bots: Seq<Seq<char>>,
    pub co_owned_guilds: Seq<Seq<char>>,
    pub created_on: Seq<char>,
    pub discriminator: u64,
    pub display_name: Option<Seq<char>>,
    pub flags: u64,
    pub guilds: Seq<Seq<char>>,
    pub id: Seq<char>,
    pub packs: Seq<Seq<char>>,
    pub slug: Option<Seq<char>>,
    pub username: Seq<char>,
}

impl View for User {
    type V = UserView;

    open spec fn view(&self) -> UserView {
        UserView {
            avatar: chars_of(self.avatar),
            banner: chars_of(self.banner),
            bio: chars_of(self.bio),
            bots: self.bots.deep_view(),
            claps: self.claps,
            co_owned_bots: self.co_owned_bots.deep_view(),
            co_owned_guilds: self.co_owned_guilds.deep_view(),
            created_on: self.created_on@,
            discriminator: self.discriminator,
            display_name: chars_of(self.display_name),
            flags: self.flags,
            guilds: self.guilds.deep_view(),
            id: self.id@,
            packs: self.packs.deep_view(),
            slug: chars_of(self.slug),
            username: self.username@,
        }
    }
}

/// The JSON object that stands for a user.
pub open spec fn user_json(x: UserView) -> JsonView {
    JsonView::Object(
        seq![
            ("avatar"@, optional_text(x.avatar)),
            ("banner"@, optional_text(x.banner)),
            ("bio"@, optional_text(x.bio)),
            ("bots"@, text_list(x.bots)),
            ("claps"@, JsonView::Number(x.claps)),
            ("coOwnedBots"@, text_list(x.co_owned_bots)),
            ("coOwnedGuilds"@, text_list(x.co_owned_guilds)),
            ("createdOn"@, text(x.created_on)),
            ("discriminator"@, JsonView::Number(x.discriminator)),
            ("displayName"@, optional_text(x.display_name)),
            ("flags"@, JsonView::Number(x.flags)),
            ("guilds"@, text_list(x.guilds)),
            ("id"@, text(x.id)),
            ("packs"@, text_list(x.packs)),
            ("slug"@, optional_text(x.slug)),
            ("username"@, text(x.username)),
        ],
    )
}

/// Whether `v` is an object with the members of a user, each of its kind.
/// Members that a user does not have do not matter.
pub open spec fn is_user(v: JsonView) -> bool {
    &&& as_optional_text(get(v, "avatar"@)) is Some
    &&& as_optional_text(get(v, "banner"@)) is Some
    &&& as_optional_text(get(v, "bio"@)) is Some
    &&& as_text_list(get(v, "bots"@)) is Some
    &&& as_number(get(v, "claps"@)) is Some
    &&& as_text_list(get(v, "coOwnedBots"@)) is Some
    &&& as_text_list(get(v, "coOwnedGuilds"@)) is Some
    &&& as_text(get(v, "createdOn"@)) is Some
    &&& as_number(get(v, "discriminator"@)) is Some
    &&& as_optional_text(get(v, "displayName"@)) is Some
    &&& as_number(get(v, "flags"@)) is Some
    &&& as_text_list(get(v, "guilds"@)) is Some
    &&& as_text(get(v, "id"@)) is Some
    &&& as_text_list(get(v, "packs"@)) is Some
    &&& as_optional_text(get(v, "slug"@)) is Some
    &&& as_text(get(v, "username"@)) is Some
}

/// The user that `v` stands for, where `v` has the members of one.
pub open spec fn user_from_json(v: JsonView) -> Option<UserView> {
    if is_user(v) {
        Some(
            UserView {
                avatar: as_optional_text(get(v, "avatar"@))->0,
                banner: as_optional_text(get(v, "banner"@))->0,
                bio: as_optional_text(get(v, "bio"@))->0,
                bots: as_text_list(get(v, "bots"@))->0,
                claps: as_number(get(v, "claps"@))->0,
                co_owned_bots: as_text_list(get(v, "coOwnedBots"@))->0,
                co_owned_guilds: as_text_list(get(v, "coOwnedGuilds"@))->0,
                created_on: as_text(get(v, "createdOn"@))->0,
                discriminator: as_number(get(v, "discriminator"@))->0,
                display_name: as_optional_text(get(v, "displayName"@))->0,
                flags: as_number(get(v, "flags"@))->0,
                guilds: as_text_list(get(v, "guilds"@))->0,
                id: as_text(get(v, "id"@))->0,
                packs: as_text_list(get(v, "packs"@))->0,
                slug: as_optional_text(get(v, "slug"@))->0,
                username: as_text(get(v, "username"@))->0,
            },
        )
    } else {
        None
    }
}

impl User {
    /// Writes the user as a JSON object.
    pub fn to_json(&self) -> (r: Json)
        ensures
            r@ == user_json(self@),
    {
        let mut members: Vec<(String, Json)> = Vec::new();
        members.push((String::from_str("avatar"), Json::optional_text(&self.avatar)));
        members.push((String::from_str("banner"), Json::optional_text(&self.banner)));
        members.push((String::from_str("bio"), Json::optional_text(&self.bio)));
        members.push((String::from_str("bots"), Json::text_list(&self.bots)));
        members.push((String::from_str("claps"), Json::Number(self.claps)));
        members.push((String::from_str("coOwnedBots"), Json::text_list(&self.co_owned_bots)));
        members.push((String::from_str("coOwnedGuilds"), Json::text_list(&self.co_owned_guilds)));
        members.push((String::from_str("createdOn"), Json::text(self.created_on.as_str())));
        members.push((String::from_str("discriminator"), Json::Number(self.discriminator)));
        members.push((String::from_str("displayName"), Json::optional_text(&self.display_name)));
        members.push((String::from_str("flags"), Json::Number(self.flags)));
        members.push((String::from_str("guilds"), Json::text_list(&self.guilds)));
        members.push((String::from_str("id"), Json::text(self.id.as_str())));
        members.push((String::from_str("packs"), Json::text_list(&self.packs)));
        members.push((String::from_str("slug"), Json::optional_text(&self.slug)));
        members.push((String::from_str("username"), Json::text(self.username.as_str())));
        let r = Json::object(members);
        assert(r@->Object_0 =~= user_json(self@)->Object_0);
        r
    }

    /// Reads a user from a JSON object. Fails with `Decode` where a member of
    /// a user is of another kind, or is missing and not optional.
    pub fn from_json(v: &Json) -> (r: Result<User, ClientError>)
        ensures
            match user_from_json(v@) {
                Some(x) => r matches Ok(read) && read@ == x,
                None => r matches Err(e) && e == ClientError::Decode,
            },
    {
        let avatar = match read_optional_text(v.get("avatar")) {
            Some(x) => x,
            None => return Err(ClientError::Decode),
        };
        let banner = match read_optional_text(v.get("banner")) {
            Some(x) => x,
            None => return Err(ClientError::Decode),
        };
        let bio = match read_optional_text(v.get("bio")) {
            Some(x) => x,
            None => return Err(ClientError::Decode),
        };
        let bots = match read_text_list(v.get("bots")) {
            Some(x) => x,
            None => return Err(ClientError::Decode),
        };
        let claps = match read_number(v.get("claps")) {
            Some(x) => x,
            None => return Err(ClientError::Decode),
        };
        let co_owned_bots = match read_text_list(v.get("coOwnedBots")) {
            Some(x) => x,
            None => return Err(ClientError::Decode),
        };
        let co_owned_guilds = match read_text_list(v.get("coOwnedGuilds")) {
            Some(x) => x,
            None => return Err(ClientError::Decode),
        };
        let created_on = match read_text(v.get("createdOn")) {
            Some(x) => x,
            None => return Err(ClientError::Decode),
        };
        let discriminator = match read_number(v.get("discriminator")) {
            Some(x) => x,
            None => return Err(ClientError::Decode),
        };
        let display_name = match read_optional_text(v.get("displayName")) {
            Some(x) => x,
            None => return Err(ClientError::Decode),
        };
        let flags = match read_number(v.get("flags")) {
            Some(x) => x,
            None => return Err(ClientError::Decode),
        };
        let guilds = match read_text_list(v.get("guilds")) {
            Some(x) => x,
            None => return Err(ClientError::Decode),
        };
        let id = match read_text(v.get("id")) {
            Some(x) => x,
            None => return Err(ClientError::Decode),
        };
        let packs = match read_text_list(v.get("packs")) {
            Some(x) => x,
            None => return Err(ClientError::Decode),
        };
        let slug = match read_optional_text(v.get("slug")) {
            Some(x) => x,
            None => return Err(ClientError::Decode),
        };
        let username = match read_text(v.get("username")) {
            Some(x) => x,
            None => return Err(ClientError::Decode),
        };
        Ok(
            User {
                avatar,
                banner,
                bio,
                bots,
                claps,
                co_owned_bots,
                co_owned_guilds,
                created_on,
                discriminator,
                display_name,
                flags,
                guilds,
                id,
                packs,
                slug,
                username,
            },
        )
    }
}

/// The marks of the member names of a user: no two are alike.
proof fn lemma_user_names()
    ensures
        name_mark("avatar"@) == (6nat, 'a', 't', 'r'),
        name_mark("banner"@) == (6nat, 'b', 'n', 'r'),
        name_mark("bio"@) == (3nat, 'b', 'i', 'o'),
        name_mark("bots"@) == (4nat, 'b', 't', 's'),
        name_mark("claps"@) == (5nat, 'c', 'a', 's'),
        name_mark("coOwnedBots"@) == (11nat, 'c', 'e', 's'),
        name_mark("coOwnedGuilds"@) == (13nat, 'c', 'd', 's'),
        name_mark("createdOn"@) == (9nat, 'c', 't', 'n'),
        name_mark("discriminator"@) == (13nat, 'd', 'm', 'r'),
        name_mark("displayName"@) == (11nat, 'd', 'a', 'e'),
        name_mark("flags"@) == (5nat, 'f', 'a', 's'),
        name_mark("guilds"@) == (6nat, 'g', 'l', 's'),
        name_mark("id"@) == (2nat, 'i', 'd', 'd'),
        name_mark("packs"@) == (5nat, 'p', 'c', 's'),
        name_mark("slug"@) == (4nat, 's', 'u', 'g'),
        name_mark("username"@) == (8nat, 'u', 'n', 'e'),
{
    reveal_strlit("avatar");
    reveal_strlit("banner");
    reveal_strlit("bio");
    reveal_strlit("bots");
    reveal_strlit("claps");
    reveal_strlit("coOwnedBots");
    reveal_strlit("coOwnedGuilds");
    reveal_strlit("createdOn");
    reveal_strlit("discriminator");
    reveal_strlit("displayName");
    reveal_strlit("flags");
    reveal_strlit("guilds");
    reveal_strlit("id");
    reveal_strlit("packs");
    reveal_strlit("slug");
    reveal_strlit("username");
}

/// Reading what was written gives the user back: every member as it was,
/// an absent one absent.
pub proof fn lemma_user_round_trip(x: UserView)
    ensures
        user_from_json(user_json(x)) == Some(x),
{
    lemma_user_names();
    let members = user_json(x)->Object_0;
    lemma_member_at(members, "avatar"@, 0);
    lemma_member_at(members, "banner"@, 1);
    lemma_member_at(members, "bio"@, 2);
    lemma_member_at(members, "bots"@, 3);
    lemma_member_at(members, "claps"@, 4);
    lemma_member_at(members, "coOwnedBots"@, 5);
    lemma_member_at(members, "coOwnedGuilds"@, 6);
    lemma_member_at(members, "createdOn"@, 7);
    lemma_member_at(members, "discriminator"@, 8);
    lemma_member_at(members, "displayName"@, 9);
    lemma_member_at(members, "flags"@, 10);
    lemma_member_at(members, "guilds"@, 11);
    lemma_member_at(members, "id"@, 12);
    lemma_member_at(members, "packs"@, 13);
    lemma_member_at(members, "slug"@, 14);
    lemma_member_at(members, "username"@, 15);
    lemma_read_what_was_written(Seq::empty(), x.avatar, Seq::empty(), 0, false);
    lemma_read_what_was_written(Seq::empty(), x.banner, Seq::empty(), 0, false);
    lemma_read_what_was_written(Seq::empty(), x.bio, Seq::empty(), 0, false);
    lemma_read_what_was_written(Seq::empty(), None, x.bots, 0, false);
    lemma_read_what_was_written(Seq::empty(), None, x.co_owned_bots, 0, false);
    lemma_read_what_was_written(Seq::empty(), None, x.co_owned_guilds, 0, false);
    lemma_read_what_was_written(x.created_on, None, Seq::empty(), 0, false);
    lemma_read_what_was_written(Seq::empty(), x.display_name, Seq::empty(), 0, false);
    lemma_read_what_was_written(Seq::empty(), None, x.guilds, 0, false);
    lemma_read_what_was_written(x.id, None, Seq::empty(), 0, false);
    lemma_read_what_was_written(Seq::empty(), None, x.packs, 0, false);
    lemma_read_what_was_written(Seq::empty(), x.slug, Seq::empty(), 0, false);
    lemma_read_what_was_written(x.username, None, Seq::empty(), 0, false);
}


} // verus!
