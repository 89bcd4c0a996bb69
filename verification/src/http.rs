//! A request as plain values, and what the status of its answer means.
//!
//! The library decides what is sent; whoever performs the exchange hands the
//! answer's status back.

use crate::model::bot::bot_from_json;
use crate::model::command::{command_from_json, command_json};
use crate::model::results::results_from_json;
use crate::model::user::user_from_json;
use crate::model::{
    Bot, BotView, Command, CommandView, SearchResults, SearchResultsView, User, UserView,
};
use crate::search::{options_json, SearchOptions, SearchOptionsView};
use crate::wire::{Json, JsonView};
use vstd::prelude::*;
use vstd::string::StringExecFns;

verus! {

/// The HTTP methods that the service's operations use.
#[derive(Clone, Copy, Debug, PartialEq, Eq, Hash, Structural)]
pub enum Method {
    Put,
    Post,
}

/// Why an operation failed.
#[derive(Clone, Copy, Debug, PartialEq, Eq, Hash, Structural)]
pub enum ClientError {
    /// The HTTP stack could not be set up when the client was made.
    TransportInit,
    /// The exchange failed on the network, or took longer than the client's
    /// timeout.
    Transport { timed_out: bool },
    /// The service answered with a status outside the success range.
    Api { status: u16 },
    /// The body of the answer does not have the expected shape.
    Decode,
}

/// What a request carries in its JSON body.
#[derive(Clone, Debug, PartialEq, Eq, Hash)]
pub enum Payload {
    Empty,
    Command(Command),
    Search(SearchOptions),
}

/// What a [`Payload`] holds, as mathematical values.
pub enum PayloadView {
    Empty,
    Command(CommandView),
    Search(SearchOptionsView),
}

impl View for Payload {
    type V = PayloadView;

    open spec fn view(&self) -> PayloadView {
        match self {
            Payload::Empty => PayloadView::Empty,
            Payload::Command(c) => PayloadView::Command(c@),
            Payload::Search(o) => PayloadView::Search(o@),
        }
    }
}

/// One call of the service, ready to be sent.
#[derive(Clone, Debug, PartialEq, Eq, Hash)]
pub struct Request {
    pub method: Method,
    pub url: String,
    /// The token that authenticates the request, without any prefix.
    pub bearer: String,
    pub payload: Payload,
}

/// What a [`Request`] holds, as mathematical values.
pub struct RequestView {
    pub method: Method,
    pub url: Seq<char>,
    pub bearer: Seq<char>,
    pub payload: PayloadView,
}

impl View for Request {
    type V = RequestView;

    open spec fn view(&self) -> RequestView {
        RequestView {
            method: self.method,
            url: self.url@,
            bearer: self.bearer@,
            payload: self.payload@,
        }
    }
}

/// The view of an optional request.
pub open spec fn request_of(r: Option<Request>) -> Option<RequestView> {
    match r {
        Some(r) => Some(r@),
        None => None,
    }
}

/// The answer to a request: its status, and its body where it had one that
/// is JSON.
#[derive(Debug, PartialEq, Eq, Hash)]
pub struct Response {
    pub status: u16,
    pub body: Option<Json>,
}

/// The JSON value that is sent as the body of a request with `payload`. The
/// body of a command does not hold the command's identifier.
pub open spec fn payload_json(payload: PayloadView) -> Option<JsonView> {
    match payload {
        PayloadView::Empty => None,
        PayloadView::Command(c) => Some(command_json(c)),
        PayloadView::Search(o) => Some(options_json(o)),
    }
}

/// The view of a body that may be missing.
pub open spec fn body_of(body: Option<Json>) -> Option<JsonView> {
    match body {
        Some(v) => Some(v@),
        None => None,
    }
}

/// What an answer with `status` means for an operation that reads a record
/// from the body, where `read` is the record that the body stands for: an
/// `Api` error outside the success range, whatever the body; else the record,
/// or a `Decode` error where the body stands for none.
pub open spec fn answer_outcome<T>(status: u16, read: Option<T>) -> Result<T, ClientError> {
    if !is_success(status) {
        Err(ClientError::Api { status })
    } else {
        match read {
            Some(x) => Ok(x),
            None => Err(ClientError::Decode),
        }
    }
}

/// The command that a body stands for.
pub open spec fn body_command(body: Option<JsonView>) -> Option<CommandView> {
    match body {
        Some(v) => command_from_json(v),
        None => None,
    }
}

/// The listing that a body stands for.
pub open spec fn body_bot(body: Option<JsonView>) -> Option<BotView> {
    match body {
        Some(v) => bot_from_json(v),
        None => None,
    }
}

/// The user that a body stands for.
pub open spec fn body_user(body: Option<JsonView>) -> Option<UserView> {
    match body {
        Some(v) => user_from_json(v),
        None => None,
    }
}

/// The search results that a body stands for.
pub open spec fn body_results(body: Option<JsonView>) -> Option<SearchResultsView> {
    match body {
        Some(v) => results_from_json(v),
        None => None,
    }
}

/// The value of the `Authorization` header for `token`.
pub open spec fn bearer_value(token: Seq<char>) -> Seq<char> {
    "Bearer "@ + token
}

/// Whether `status` is in the success range, 200 to 299.
pub open spec fn is_success(status: u16) -> bool {
    200 <= status <= 299
}

/// What an answer with `status` means for the operation: success in the
/// success range, an `Api` error that carries the status otherwise.
pub open spec fn status_outcome(status: u16) -> Result<(), ClientError> {
    if is_success(status) {
        Ok(())
    } else {
        Err(ClientError::Api { status })
    }
}

impl Method {
    /// The method's name as it stands in a request line.
    pub open spec fn name(self) -> Seq<char> {
        match self {
            Method::Put => "PUT"@,
            Method::Post => "POST"@,
        }
    }

    /// The method's name as it stands in a request line.
    pub fn as_str(&self) -> (r: &'static str)
        ensures
            r@ == self.name(),
    {
        match self {
            Method::Put => "PUT",
            Method::Post => "POST",
        }
    }
}

impl Request {
    /// The value of the request's `Authorization` header.
    pub fn authorization(&self) -> (r: String)
        ensures
            r@ == bearer_value(self@.bearer),
    {
        let mut value = String::from_str("Bearer ");
        value.append(self.bearer.as_str());
        value
    }

    /// Whether the request has a JSON body.
    pub fn has_body(&self) -> (r: bool)
        ensures
            r == !(self@.payload is Empty),
    {
        match self.payload {
            Payload::Empty => false,
            _ => true,
        }
    }
}

impl Request {
    /// The JSON value to send as the request's body, where it has one.
    pub fn body(&self) -> (r: Option<Json>)
        ensures
            body_of(r) == payload_json(self@.payload),
    {
        match &self.payload {
            Payload::Empty => None,
            Payload::Command(command) => Some(command.to_json()),
            Payload::Search(options) => Some(options.to_json()),
        }
    }
}

impl Response {
    /// The outcome of an operation that expects no record: success for a
    /// status in the success range, an `Api` error with the status
    /// otherwise.
    pub fn finish(&self) -> (r: Result<(), ClientError>)
        ensures
            r == status_outcome(self.status),
    {
        check_status(self.status)
    }

    /// The outcome of an operation that expects a command.
    pub fn command(&self) -> (r: Result<Command, ClientError>)
        ensures
            match answer_outcome(self.status, body_command(body_of(self.body))) {
                Ok(x) => r matches Ok(read) && read@ == x,
                Err(e) => r matches Err(error) && error == e,
            },
    {
        match check_status(self.status) {
            Err(e) => Err(e),
            Ok(_) => match &self.body {
                Some(v) => Command::from_json(v),
                None => Err(ClientError::Decode),
            },
        }
    }

    /// The outcome of an operation that expects a bot's listing.
    pub fn bot(&self) -> (r: Result<Bot, ClientError>)
        ensures
            match answer_outcome(self.status, body_bot(body_of(self.body))) {
                Ok(x) => r matches Ok(read) && read@ == x,
                Err(e) => r matches Err(error) && error == e,
            },
    {
        match check_status(self.status) {
            Err(e) => Err(e),
            Ok(_) => match &self.body {
                Some(v) => Bot::from_json(v),
                None => Err(ClientError::Decode),
            },
        }
    }

    /// The outcome of an operation that expects a user.
    pub fn user(&self) -> (r: Result<User, ClientError>)
        ensures
            match answer_outcome(self.status, body_user(body_of(self.body))) {
                Ok(x) => r matches Ok(read) && read@ == x,
                Err(e) => r matches Err(error) && error == e,
            },
    {
        match check_status(self.status) {
            Err(e) => Err(e),
            Ok(_) => match &self.body {
                Some(v) => User::from_json(v),
                None => Err(ClientError::Decode),
            },
        }
    }

    /// The outcome of a search.
    pub fn results(&self) -> (r: Result<SearchResults, ClientError>)
        ensures
            match answer_outcome(self.status, body_results(body_of(self.body))) {
                Ok(x) => r matches Ok(read) && read@ == x,
                Err(e) => r matches Err(error) && error == e,
            },
    {
        match check_status(self.status) {
            Err(e) => Err(e),
            Ok(_) => match &self.body {
                Some(v) => SearchResults::from_json(v),
                None => Err(ClientError::Decode),
            },
        }
    }
}

/// Judges the status of an answer.
pub fn check_status(status: u16) -> (r: Result<(), ClientError>)
    ensures
        r == status_outcome(status),
{
    if 200 <= status && status <= 299 {
        Ok(())
    } else {
        Err(ClientError::Api { status })
    }
}

} // verus!
