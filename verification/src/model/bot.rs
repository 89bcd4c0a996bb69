//! A bot's listing page, and the JSON object that stands for one.

use crate::http::ClientError;
use crate::wire::{
    as_bool, as_number, as_optional_text, as_text, as_text_list, chars_of, get, name_mark,
    optional_text, read_bool, read_number, read_optional_text, read_text, read_text_list, text,
    text_list,
};
use crate::wire::{lemma_member_at, lemma_read_what_was_written};
use crate::wire::{Json, JsonView};
use vstd::prelude::*;
use vstd::string::StringExecFns;

verus! {

/// A bot's listing page.
#[derive(Clone, Debug, PartialEq, Eq, Hash)]
pub struct Bot {
    pub flags: u64,
    pub bot_id: Option<String>,
    pub features: u64,
    pub id: String,
    pub username: String,
    pub avatar: String,
    pub discriminator: u64,
    pub prefix: String,
    pub is_packable: bool,
    pub is_hidden: bool,
    pub is_forced_into_hiding: bool,
    pub invite_url: String,
    pub webhook_url: Option<String>,
    pub webhook_auth: Option<String>,
    pub website_url: String,
    pub repo_url: String,
    pub twitter_url: String,
    pub instagram_url: String,
    pub support_server_url: String,
    pub slug: String,
    pub tags: Vec<String>,
    pub created_on: String,
    pub owner_id: String,
    pub co_owner_ids: Vec<String>,
    pub brief_description: String,
    pub long_description: String,
    pub guild_count: u64,
    pub votes: u64,
    pub all_time_votes: u64,
}

/// What a [`Bot`] holds, as mathematical values.
pub struct BotView {
    pub flags: u64,
    pub bot_id: Option<Seq<char>>,
    pub features: u64,
    pub id: Seq<char>,
    pub username: Seq<char>,
    pub avatar: Seq<char>,
    pub discriminator: u64,
    pub prefix: Seq<char>,
    pub is_packable: bool,
    pub is_hidden: bool,
    pub is_forced_into_hiding: bool,
    pub invite_url: Seq<char>,
    pub webhook_url: Option<Seq<char>>,
    pub webhook_auth: Option<Seq<char>>,
    pub website_url: Seq<char>,
    pub repo_url: Seq<char>,
    pub twitter_url: Seq<char>,
    pub instagram_url: Seq<char>,
    pub support_server_url: Seq<char>,
    pub slug: Seq<char>,
    pub tags: Seq<Seq<char>>,
    pub created_on: Seq<char>,
    pub owner_id: Seq<char>,
    pub co_owner_ids: Seq<Seq<char>>,
    pub brief_description: Seq<char>,
    pub long_description: Seq<char>,
    pub guild_count: u64,
    pub votes: u64,
    pub all_time_votes: u64,
}

impl View for Bot {
    type V = BotView;

    open spec fn view(&self) -> BotView {
        BotView {
            flags: self.flags,
            bot_id: chars_of(self.bot_id),
            features: self.features,
            id: self.id@,
            username: self.username@,
            avatar: self.avatar@,
            discriminator: self.discriminator,
            prefix: self.prefix@,
            is_packable: self.is_packable,
            is_hidden: self.is_hidden,
            is_forced_into_hiding: self.is_forced_into_hiding,
            invite_url: self.invite_url@,
            webhook_url: chars_of(self.webhook_url),
            webhook_auth: chars_of(self.webhook_auth),
            website_url: self.website_url@,
            repo_url: self.repo_url@,
            twitter_url: self.twitter_url@,
            instagram_url: self.instagram_url@,
            support_server_url: self.support_server_url@,
            slug: self.slug@,
            tags: self.tags.deep_view(),
            created_on: self.created_on@,
            owner_id: self.owner_id@,
            co_owner_ids: self.co_owner_ids.deep_view(),
            brief_description: self.brief_description@,
            long_description: self.long_description@,
            guild_count: self.guild_count,
            votes: self.votes,
            all_time_votes: self.all_time_votes,
        }
    }
}

/// The JSON object that stands for a bot listing.
pub open spec fn bot_json(x: BotView) -> JsonView {
    JsonView::Object(
        seq![
            ("flags"@, JsonView::Number(x.flags)),
            ("botId"@, optional_text(x.bot_id)),
            ("features"@, JsonView::Number(x.features)),
            ("id"@, text(x.id)),
            ("username"@, text(x.username)),
            ("avatar"@, text(x.avatar)),
            ("discriminator"@, JsonView::Number(x.discriminator)),
            ("prefix"@, text(x.prefix)),
            ("isPackable"@, JsonView::Bool(x.is_packable)),
            ("isHidden"@, JsonView::Bool(x.is_hidden)),
            ("isForcedIntoHiding"@, JsonView::Bool(x.is_forced_into_hiding)),
            ("inviteUrl"@, text(x.invite_url)),
            ("webhookUrl"@, optional_text(x.webhook_url)),
            ("webhookAuth"@, optional_text(x.webhook_auth)),
            ("websiteUrl"@, text(x.website_url)),
            ("repoUrl"@, text(x.repo_url)),
            ("twitterUrl"@, text(x.twitter_url)),
            ("instagramUrl"@, text(x.instagram_url)),
            ("supportServerUrl"@, text(x.support_server_url)),
            ("slug"@, text(x.slug)),
            ("tags"@, text_list(x.tags)),
            ("createdOn"@, text(x.created_on)),
            ("ownerId"@, text(x.owner_id)),
            ("coOwnerIds"@, text_list(x.co_owner_ids)),
            ("briefDescription"@, text(x.brief_description)),
            ("longDescription"@, text(x.long_description)),
            ("guildCount"@, JsonView::Number(x.guild_count)),
            ("votes"@, JsonView::Number(x.votes)),
            ("allTimeVotes"@, JsonView::Number(x.all_time_votes)),
        ],
    )
}

/// Whether `v` is an object with the members of a bot listing, each of its kind.
/// Members that a bot listing does not have do not matter.
pub open spec fn is_bot(v: JsonView) -> bool {
    &&& as_number(get(v, "flags"@)) is Some
    &&& as_optional_text(get(v, "botId"@)) is Some
    &&& as_number(get(v, "features"@)) is Some
    &&& as_text(get(v, "id"@)) is Some
    &&& as_text(get(v, "username"@)) is Some
    &&& as_text(get(v, "avatar"@)) is Some
    &&& as_number(get(v, "discriminator"@)) is Some
    &&& as_text(get(v, "prefix"@)) is Some
    &&& as_bool(get(v, "isPackable"@)) is Some
    &&& as_bool(get(v, "isHidden"@)) is Some
    &&& as_bool(get(v, "isForcedIntoHiding"@)) is Some
    &&& as_text(get(v, "inviteUrl"@)) is Some
    &&& as_optional_text(get(v, "webhookUrl"@)) is Some
    &&& as_optional_text(get(v, "webhookAuth"@)) is Some
    &&& as_text(get(v, "websiteUrl"@)) is Some
    &&& as_text(get(v, "repoUrl"@)) is Some
    &&& as_text(get(v, "twitterUrl"@)) is Some
    &&& as_text(get(v, "instagramUrl"@)) is Some
    &&& as_text(get(v, "supportServerUrl"@)) is Some
    &&& as_text(get(v, "slug"@)) is Some
    &&& as_text_list(get(v, "tags"@)) is Some
    &&& as_text(get(v, "createdOn"@)) is Some
    &&& as_text(get(v, "ownerId"@)) is Some
    &&& as_text_list(get(v, "coOwnerIds"@)) is Some
    &&& as_text(get(v, "briefDescription"@)) is Some
    &&& as_text(get(v, "longDescription"@)) is Some
    &&& as_number(get(v, "guildCount"@)) is Some
    &&& as_number(get(v, "votes"@)) is Some
    &&& as_number(get(v, "allTimeVotes"@)) is Some
}

/// The listing that `v` stands for, where `v` has the members of one.
pub open spec fn bot_from_json(v: JsonView) -> Option<BotView> {
    if is_bot(v) {
        Some(
            BotView {
                flags: as_number(get(v, "flags"@))->0,
                bot_id: as_optional_text(get(v, "botId"@))->0,
                features: as_number(get(v, "features"@))->0,
                id: as_text(get(v, "id"@))->0,
                username: as_text(get(v, "username"@))->0,
                avatar: as_text(get(v, "avatar"@))->0,
                discriminator: as_number(get(v, "discriminator"@))->0,
                prefix: as_text(get(v, "prefix"@))->0,
                is_packable: as_bool(get(v, "isPackable"@))->0,
                is_hidden: as_bool(get(v, "isHidden"@))->0,
                is_forced_into_hiding: as_bool(get(v, "isForcedIntoHiding"@))->0,
                invite_url: as_text(get(v, "inviteUrl"@))->0,
                webhook_url: as_optional_text(get(v, "webhookUrl"@))->0,
                webhook_auth: as_optional_text(get(v, "webhookAuth"@))->0,
                website_url: as_text(get(v, "websiteUrl"@))->0,
                repo_url: as_text(get(v, "repoUrl"@))->0,
                twitter_url: as_text(get(v, "twitterUrl"@))->0,
                instagram_url: as_text(get(v, "instagramUrl"@))->0,
                support_server_url: as_text(get(v, "supportServerUrl"@))->0,
                slug: as_text(get(v, "slug"@))->0,
                tags: as_text_list(get(v, "tags"@))->0,
                created_on: as_text(get(v, "createdOn"@))->0,
                owner_id: as_text(get(v, "ownerId"@))->0,
                co_owner_ids: as_text_list(get(v, "coOwnerIds"@))->0,
                brief_description: as_text(get(v, "briefDescription"@))->0,
                long_description: as_text(get(v, "longDescription"@))->0,
                guild_count: as_number(get(v, "guildCount"@))->0,
                votes: as_number(get(v, "votes"@))->0,
                all_time_votes: as_number(get(v, "allTimeVotes"@))->0,
            },
        )
    } else {
        None
    }
}

impl Bot {
    /// Writes the listing as a JSON object.
    pub fn to_json(&self) -> (r: Json)
        ensures
            r@ == bot_json(self@),
    {
        let mut members: Vec<(String, Json)> = Vec::new();
        members.push((String::from_str("flags"), Json::Number(self.flags)));
        members.push((String::from_str("botId"), Json::optional_text(&self.bot_id)));
        members.push((String::from_str("features"), Json::Number(self.features)));
        members.push((String::from_str("id"), Json::text(self.id.as_str())));
        members.push((String::from_str("username"), Json::text(self.username.as_str())));
        members.push((String::from_str("avatar"), Json::text(self.avatar.as_str())));
        members.push((String::from_str("discriminator"), Json::Number(self.discriminator)));
        members.push((String::from_str("prefix"), Json::text(self.prefix.as_str())));
        members.push((String::from_str("isPackable"), Json::Bool(self.is_packable)));
        members.push((String::from_str("isHidden"), Json::Bool(self.is_hidden)));
        members.push((String::from_str("isForcedIntoHiding"), Json::Bool(self.is_forced_into_hiding)));
        members.push((String::from_str("inviteUrl"), Json::text(self.invite_url.as_str())));
        members.push((String::from_str("webhookUrl"), Json::optional_text(&self.webhook_url)));
        members.push((String::from_str("webhookAuth"), Json::optional_text(&self.webhook_auth)));
        members.push((String::from_str("websiteUrl"), Json::text(self.website_url.as_str())));
        members.push((String::from_str("repoUrl"), Json::text(self.repo_url.as_str())));
        members.push((String::from_str("twitterUrl"), Json::text(self.twitter_url.as_str())));
        members.push((String::from_str("instagramUrl"), Json::text(self.instagram_url.as_str())));
        members.push((String::from_str("supportServerUrl"), Json::text(self.support_server_url.as_str())));
        members.push((String::from_str("slug"), Json::text(self.slug.as_str())));
        members.push((String::from_str("tags"), Json::text_list(&self.tags)));
        members.push((String::from_str("createdOn"), Json::text(self.created_on.as_str())));
        members.push((String::from_str("ownerId"), Json::text(self.owner_id.as_str())));
        members.push((String::from_str("coOwnerIds"), Json::text_list(&self.co_owner_ids)));
        members.push((String::from_str("briefDescription"), Json::text(self.brief_description.as_str())));
        members.push((String::from_str("longDescription"), Json::text(self.long_description.as_str())));
        members.push((String::from_str("guildCount"), Json::Number(self.guild_count)));
        members.push((String::from_str("votes"), Json::Number(self.votes)));
        members.push((String::from_str("allTimeVotes"), Json::Number(self.all_time_votes)));
        let r = Json::object(members);
        assert(r@->Object_0 =~= bot_json(self@)->Object_0);
        r
    }

    /// Reads a bot listing from a JSON object. Fails with `Decode` where a member of
    /// a bot listing is of another kind, or is missing and not optional.
    pub fn from_json(v: &Json) -> (r: Result<Bot, ClientError>)
        ensures
            match bot_from_json(v@) {
                Some(x) => r matches Ok(read) && read@ == x,
                None => r matches Err(e) && e == ClientError::Decode,
            },
    {
        let flags = match read_number(v.get("flags")) {
            Some(x) => x,
            None => return Err(ClientError::Decode),
        };
        let bot_id = match read_optional_text(v.get("botId")) {
            Some(x) => x,
            None => return Err(ClientError::Decode),
        };
        let features = match read_number(v.get("features")) {
            Some(x) => x,
            None => return Err(ClientError::Decode),
        };
        let id = match read_text(v.get("id")) {
            Some(x) => x,
            None => return Err(ClientError::Decode),
        };
        let username = match read_text(v.get("username")) {
            Some(x) => x,
            None => return Err(ClientError::Decode),
        };
        let avatar = match read_text(v.get("avatar")) {
            Some(x) => x,
            None => return Err(ClientError::Decode),
        };
        let discriminator = match read_number(v.get("discriminator")) {
            Some(x) => x,
            None => return Err(ClientError::Decode),
        };
        let prefix = match read_text(v.get("prefix")) {
            Some(x) => x,
            None => return Err(ClientError::Decode),
        };
        let is_packable = match read_bool(v.get("isPackable")) {
            Some(x) => x,
            None => return Err(ClientError::Decode),
        };
        let is_hidden = match read_bool(v.get("isHidden")) {
            Some(x) => x,
            None => return Err(ClientError::Decode),
        };
        let is_forced_into_hiding = match read_bool(v.get("isForcedIntoHiding")) {
            Some(x) => x,
            None => return Err(ClientError::Decode),
        };
        let invite_url = match read_text(v.get("inviteUrl")) {
            Some(x) => x,
            None => return Err(ClientError::Decode),
        };
        let webhook_url = match read_optional_text(v.get("webhookUrl")) {
            Some(x) => x,
            None => return Err(ClientError::Decode),
        };
        let webhook_auth = match read_optional_text(v.get("webhookAuth")) {
            Some(x) => x,
            None => return Err(ClientError::Decode),
        };
        let website_url = match read_text(v.get("websiteUrl")) {
            Some(x) => x,
            None => return Err(ClientError::Decode),
        };
        let repo_url = match read_text(v.get("repoUrl")) {
            Some(x) => x,
            None => return Err(ClientError::Decode),
        };
        let twitter_url = match read_text(v.get("twitterUrl")) {
            Some(x) => x,
            None => return Err(ClientError::Decode),
        };
        let instagram_url = match read_text(v.get("instagramUrl")) {
            Some(x) => x,
            None => return Err(ClientError::Decode),
        };
        let support_server_url = match read_text(v.get("supportServerUrl")) {
            Some(x) => x,
            None => return Err(ClientError::Decode),
        };
        let slug = match read_text(v.get("slug")) {
            Some(x) => x,
            None => return Err(ClientError::Decode),
        };
        let tags = match read_text_list(v.get("tags")) {
            Some(x) => x,
            None => return Err(ClientError::Decode),
        };
        let created_on = match read_text(v.get("createdOn")) {
            Some(x) => x,
            None => return Err(ClientError::Decode),
        };
        let owner_id = match read_text(v.get("ownerId")) {
            Some(x) => x,
            None => return Err(ClientError::Decode),
        };
        let co_owner_ids = match read_text_list(v.get("coOwnerIds")) {
            Some(x) => x,
            None => return Err(ClientError::Decode),
        };
        let brief_description = match read_text(v.get("briefDescription")) {
            Some(x) => x,
            None => return Err(ClientError::Decode),
        };
        let long_description = match read_text(v.get("longDescription")) {
            Some(x) => x,
            None => return Err(ClientError::Decode),
        };
        let guild_count = match read_number(v.get("guildCount")) {
            Some(x) => x,
            None => return Err(ClientError::Decode),
        };
        let votes = match read_number(v.get("votes")) {
            Some(x) => x,
            None => return Err(ClientError::Decode),
        };
        let all_time_votes = match read_number(v.get("allTimeVotes")) {
            Some(x) => x,
            None => return Err(ClientError::Decode),
        };
        Ok(
            Bot {
                flags,
                bot_id,
                features,
                id,
                username,
                avatar,
                discriminator,
                prefix,
                is_packable,
                is_hidden,
                is_forced_into_hiding,
                invite_url,
                webhook_url,
                webhook_auth,
                website_url,
                repo_url,
                twitter_url,
                instagram_url,
                support_server_url,
                slug,
                tags,
                created_on,
                owner_id,
                co_owner_ids,
                brief_description,
                long_description,
                guild_count,
                votes,
                all_time_votes,
            },
        )
    }
}

/// The marks of the member names of a bot listing: no two are alike.
proof fn lemma_bot_names()
    ensures
        name_mark("flags"@) == (5nat, 'f', 'a', 's'),
        name_mark("botId"@) == (5nat, 'b', 't', 'd'),
        name_mark("features"@) == (8nat, 'f', 'u', 's'),
        name_mark("id"@) == (2nat, 'i', 'd', 'd'),
        name_mark("username"@) == (8nat, 'u', 'n', 'e'),
        name_mark("avatar"@) == (6nat, 'a', 't', 'r'),
        name_mark("discriminator"@) == (13nat, 'd', 'm', 'r'),
        name_mark("prefix"@) == (6nat, 'p', 'f', 'x'),
        name_mark("isPackable"@) == (10nat, 'i', 'k', 'e'),
        name_mark("isHidden"@) == (8nat, 'i', 'd', 'n'),
        name_mark("isForcedIntoHiding"@) == (18nat, 'i', 'n', 'g'),
        name_mark("inviteUrl"@) == (9nat, 'i', 't', 'l'),
        name_mark("webhookUrl"@) == (10nat, 'w', 'o', 'l'),
        name_mark("webhookAuth"@) == (11nat, 'w', 'o', 'h'),
        name_mark("websiteUrl"@) == (10nat, 'w', 't', 'l'),
        name_mark("repoUrl"@) == (7nat, 'r', 'o', 'l'),
        name_mark("twitterUrl"@) == (10nat, 't', 'e', 'l'),
        name_mark("instagramUrl"@) == (12nat, 'i', 'r', 'l'),
        name_mark("supportServerUrl"@) == (16nat, 's', 'e', 'l'),
        name_mark("slug"@) == (4nat, 's', 'u', 'g'),
        name_mark("tags"@) == (4nat, 't', 'g', 's'),
        name_mark("createdOn"@) == (9nat, 'c', 't', 'n'),
        name_mark("ownerId"@) == (7nat, 'o', 'e', 'd'),
        name_mark("coOwnerIds"@) == (10nat, 'c', 'e', 's'),
        name_mark("briefDescription"@) == (16nat, 'b', 'c', 'n'),
        name_mark("longDescription"@) == (15nat, 'l', 'c', 'n'),
        name_mark("guildCount"@) == (10nat, 'g', 'C', 't'),
        name_mark("votes"@) == (5nat, 'v', 't', 's'),
        name_mark("allTimeVotes"@) == (12nat, 'a', 'e', 's'),
{
    reveal_strlit("flags");
    reveal_strlit("botId");
    reveal_strlit("features");
    reveal_strlit("id");
    reveal_strlit("username");
    reveal_strlit("avatar");
    reveal_strlit("discriminator");
    reveal_strlit("prefix");
    reveal_strlit("isPackable");
    reveal_strlit("isHidden");
    reveal_strlit("isForcedIntoHiding");
    reveal_strlit("inviteUrl");
    reveal_strlit("webhookUrl");
    reveal_strlit("webhookAuth");
    reveal_strlit("websiteUrl");
    reveal_strlit("repoUrl");
    reveal_strlit("twitterUrl");
    reveal_strlit("instagramUrl");
    reveal_strlit("supportServerUrl");
    reveal_strlit("slug");
    reveal_strlit("tags");
    reveal_strlit("createdOn");
    reveal_strlit("ownerId");
    reveal_strlit("coOwnerIds");
    reveal_strlit("briefDescription");
    reveal_strlit("longDescription");
    reveal_strlit("guildCount");
    reveal_strlit("votes");
    reveal_strlit("allTimeVotes");
}

/// Reading what was written gives the listing back: every member as it was,
/// an absent one absent.
pub proof fn lemma_bot_round_trip(x: BotView)
    ensures
        bot_from_json(bot_json(x)) == Some(x),
{
    lemma_bot_names();
    let members = bot_json(x)->Object_0;
    lemma_member_at(members, "flags"@, 0);
    lemma_member_at(members, "botId"@, 1);
    lemma_member_at(members, "features"@, 2);
    lemma_member_at(members, "id"@, 3);
    lemma_member_at(members, "username"@, 4);
    lemma_member_at(members, "avatar"@, 5);
    lemma_member_at(members, "discriminator"@, 6);
    lemma_member_at(members, "prefix"@, 7);
    lemma_member_at(members, "isPackable"@, 8);
    lemma_member_at(members, "isHidden"@, 9);
    lemma_member_at(members, "isForcedIntoHiding"@, 10);
    lemma_member_at(members, "inviteUrl"@, 11);
    lemma_member_at(members, "webhookUrl"@, 12);
    lemma_member_at(members, "webhookAuth"@, 13);
    lemma_member_at(members, "websiteUrl"@, 14);
    lemma_member_at(members, "repoUrl"@, 15);
    lemma_member_at(members, "twitterUrl"@, 16);
    lemma_member_at(members, "instagramUrl"@, 17);
    lemma_member_at(members, "supportServerUrl"@, 18);
    lemma_member_at(members, "slug"@, 19);
    lemma_member_at(members, "tags"@, 20);
    lemma_member_at(members, "createdOn"@, 21);
    lemma_member_at(members, "ownerId"@, 22);
    lemma_member_at(members, "coOwnerIds"@, 23);
    lemma_member_at(members, "briefDescription"@, 24);
    lemma_member_at(members, "longDescription"@, 25);
    lemma_member_at(members, "guildCount"@, 26);
    lemma_member_at(members, "votes"@, 27);
    lemma_member_at(members, "allTimeVotes"@, 28);
    lemma_read_what_was_written(Seq::empty(), x.bot_id, Seq::empty(), 0, false);
    lemma_read_what_was_written(x.id, None, Seq::empty(), 0, false);
    lemma_read_what_was_written(x.username, None, Seq::empty(), 0, false);
    lemma_read_what_was_written(x.avatar, None, Seq::empty(), 0, false);
    lemma_read_what_was_written(x.prefix, None, Seq::empty(), 0, false);
    lemma_read_what_was_written(x.invite_url, None, Seq::empty(), 0, false);
    lemma_read_what_was_written(Seq::empty(), x.webhook_url, Seq::empty(), 0, false);
    lemma_read_what_was_written(Seq::empty(), x.webhook_auth, Seq::empty(), 0, false);
    lemma_read_what_was_written(x.website_url, None, Seq::empty(), 0, false);
    lemma_read_what_was_written(x.repo_url, None, Seq::empty(), 0, false);
    lemma_read_what_was_written(x.twitter_url, None, Seq::empty(), 0, false);
    lemma_read_what_was_written(x.instagram_url, None, Seq::empty(), 0, false);
    lemma_read_what_was_written(x.support_server_url, None, Seq::empty(), 0, false);
    lemma_read_what_was_written(x.slug, None, Seq::empty(), 0, false);
    lemma_read_what_was_written(Seq::empty(), None, x.tags, 0, false);
    lemma_read_what_was_written(x.created_on, None, Seq::empty(), 0, false);
    lemma_read_what_was_written(x.owner_id, None, Seq::empty(), 0, false);
    lemma_read_what_was_written(Seq::empty(), None, x.co_owner_ids, 0, false);
    lemma_read_what_was_written(x.brief_description, None, Seq::empty(), 0, false);
    lemma_read_what_was_written(x.long_description, None, Seq::empty(), 0, false);
}


} // verus!
