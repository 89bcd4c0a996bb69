//! A command of a bot, and the JSON object that stands for it.

use crate::http::ClientError;
use crate::wire::{as_text, as_text_list, get, name_mark, read_text, read_text_list, text, text_list};
use crate::wire::{lemma_member_absent, lemma_member_at, lemma_read_what_was_written};
use crate::wire::{Json, JsonView};
use vstd::prelude::*;
use vstd::string::StringExecFns;

verus! {

/// A command shown on a bot's listing page.
#[derive(Clone, Debug, PartialEq, Eq, Hash)]
pub struct Command {
    /// Assigned by the service. It selects the command in the address of a
    /// request; the JSON object of a command neither carries nor sets it.
    pub id: u64,
    pub command_name: String,
    pub description: String,
    pub syntax: String,
    pub categories: Vec<String>,
}

/// What a [`Command`] holds, as mathematical values.
pub struct CommandView {
    pub id: u64,
    pub command_name: Seq<char>,
    pub description: Seq<char>,
    pub syntax: Seq<char>,
    pub categories: Seq<Seq<char>>,
}

impl View for Command {
    type V = CommandView;

    open spec fn view(&self) -> CommandView {
        CommandView {
            id: self.id,
            command_name: self.command_name@,
            description: self.description@,
            syntax: self.syntax@,
            categories: self.categories.deep_view(),
        }
    }
}

/// The JSON object that stands for a command. It has no member `id`.
pub open spec fn command_json(c: CommandView) -> JsonView {
    JsonView::Object(
        seq![
            ("commandName"@, text(c.command_name)),
            ("description"@, text(c.description)),
            ("syntax"@, text(c.syntax)),
            ("categories"@, text_list(c.categories)),
        ],
    )
}

/// Whether `v` is an object with the members of a command, each of its
/// kind. Other members, `id` among them, do not matter.
pub open spec fn is_command(v: JsonView) -> bool {
    &&& as_text(get(v, "commandName"@)) is Some
    &&& as_text(get(v, "description"@)) is Some
    &&& as_text(get(v, "syntax"@)) is Some
    &&& as_text_list(get(v, "categories"@)) is Some
}

/// The command that `v` stands for, with the identifier 0, where `v` has
/// the members of a command.
pub open spec fn command_from_json(v: JsonView) -> Option<CommandView> {
    if is_command(v) {
        Some(
            CommandView {
                id: 0,
                command_name: as_text(get(v, "commandName"@))->0,
                description: as_text(get(v, "description"@))->0,
                syntax: as_text(get(v, "syntax"@))->0,
                categories: as_text_list(get(v, "categories"@))->0,
            },
        )
    } else {
        None
    }
}

impl Command {
    /// Writes the command as a JSON object.
    pub fn to_json(&self) -> (r: Json)
        ensures
            r@ == command_json(self@),
    {
        let mut members: Vec<(String, Json)> = Vec::new();
        members.push((String::from_str("commandName"), Json::text(self.command_name.as_str())));
        members.push((String::from_str("description"), Json::text(self.description.as_str())));
        members.push((String::from_str("syntax"), Json::text(self.syntax.as_str())));
        members.push((String::from_str("categories"), Json::text_list(&self.categories)));
        let r = Json::object(members);
        assert(r@->Object_0 =~= command_json(self@)->Object_0);
        r
    }

    /// Reads a command from a JSON object. Fails with `Decode` where a
    /// member of a command is missing or of another kind.
    pub fn from_json(v: &Json) -> (r: Result<Command, ClientError>)
        ensures
            match command_from_json(v@) {
                Some(c) => r matches Ok(read) && read@ == c,
                None => r matches Err(e) && e == ClientError::Decode,
            },
    {
        let command_name = match read_text(v.get("commandName")) {
            Some(x) => x,
            None => return Err(ClientError::Decode),
        };
        let description = match read_text(v.get("description")) {
            Some(x) => x,
            None => return Err(ClientError::Decode),
        };
        let syntax = match read_text(v.get("syntax")) {
            Some(x) => x,
            None => return Err(ClientError::Decode),
        };
        let categories = match read_text_list(v.get("categories")) {
            Some(x) => x,
            None => return Err(ClientError::Decode),
        };
        Ok(Command { id: 0, command_name, description, syntax, categories })
    }
}

/// The marks of the member names of a command: no two are alike.
proof fn lemma_command_names()
    ensures
        name_mark("commandName"@) == (11nat, 'c', 'n', 'e'),
        name_mark("description"@) == (11nat, 'd', 'i', 'n'),
        name_mark("syntax"@) == (6nat, 's', 't', 'x'),
        name_mark("categories"@) == (10nat, 'c', 'o', 's'),
{
    reveal_strlit("commandName");
    reveal_strlit("description");
    reveal_strlit("syntax");
    reveal_strlit("categories");
}

/// The JSON object of a command never has a member `id`.
pub proof fn lemma_command_json_has_no_id(c: CommandView)
    ensures
        get(command_json(c), "id"@) is None,
{
    reveal_strlit("id");
    assert(name_mark("id"@) == (2nat, 'i', 'd', 'd'));
    lemma_command_names();
    lemma_member_absent(command_json(c)->Object_0, "id"@);
}

/// Reading an object that has the members of a command succeeds whether or
/// not it has a member `id`, and the command read has the identifier 0.
pub proof fn lemma_command_id_is_not_read(v: JsonView)
    ensures
        is_command(v) ==> command_from_json(v) is Some,
        command_from_json(v) matches Some(c) ==> c.id == 0,
{
}

/// Reading what was written gives the command back, but for its identifier:
/// that is 0, since the object does not carry it.
pub proof fn lemma_command_round_trip(c: CommandView)
    ensures
        command_from_json(command_json(c)) == Some(CommandView { id: 0, ..c }),
{
    lemma_command_names();
    let members = command_json(c)->Object_0;
    lemma_member_at(members, "commandName"@, 0);
    lemma_member_at(members, "description"@, 1);
    lemma_member_at(members, "syntax"@, 2);
    lemma_member_at(members, "categories"@, 3);
    lemma_read_what_was_written(c.command_name, None, c.categories, 0, false);
    lemma_read_what_was_written(c.description, None, c.categories, 0, false);
    lemma_read_what_was_written(c.syntax, None, c.categories, 0, false);
}

} // verus!
