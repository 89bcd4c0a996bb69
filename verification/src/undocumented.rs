//! The operations that the service does not document: registering a
//! command, fetching a bot or a user, and searching. They add a path and a
//! payload to what the client builds for every request, and nothing else.

use crate::client::{request_to, DiscordlistClient};
use crate::endpoint::{
    bot_path, bot_path_string, command_path, command_path_string, endpoint, endpoint_url,
    on_search_host, search_url, user_path, user_path_string,
};
use crate::http::{request_of, Method, Payload, PayloadView, Request};
use crate::model::Command;
use crate::search::{sent_options, SearchOptions};
use vstd::prelude::*;

verus! {

impl DiscordlistClient {
    /// The request that adds `command` to the bot's listing page, or updates
    /// it: `POST` on the path of the command, with the command as body.
    pub fn add_bot_command(&self, command: Command) -> (r: Option<Request>)
        ensures
            request_of(r) == request_to(
                Method::Post,
                endpoint_url(command_path(self@.bot_id, command@.id)),
                self@.token,
                PayloadView::Command(command@),
            ),
    {
        let path = command_path_string(self.get_bot_id(), command.id);
        match self.build_request(Method::Post, endpoint(path.as_str())) {
            Some(request) => Some(Request { payload: Payload::Command(command), ..request }),
            None => None,
        }
    }

    /// The request that fetches the listing page of bot `id`.
    pub fn get_bot(&self, id: u64) -> (r: Option<Request>)
        ensures
            request_of(r) == request_to(
                Method::Post,
                endpoint_url(bot_path(id)),
                self@.token,
                PayloadView::Empty,
            ),
    {
        let path = bot_path_string(id);
        self.build_request(Method::Post, endpoint(path.as_str()))
    }

    /// The request that fetches the profile of user `id`.
    pub fn get_user(&self, id: u64) -> (r: Option<Request>)
        ensures
            request_of(r) == request_to(
                Method::Post,
                endpoint_url(user_path(id)),
                self@.token,
                PayloadView::Empty,
            ),
    {
        let path = user_path_string(id);
        self.build_request(Method::Post, endpoint(path.as_str()))
    }

    /// The request that searches the bots listed on the service: `POST` on
    /// the search path of the search host, with the options as body. Options
    /// that name no query are sent with the wildcard; a query that is named
    /// is sent as it is.
    pub fn search(&self, options: SearchOptions) -> (r: Option<Request>)
        ensures
            request_of(r) == request_to(
                Method::Post,
                search_url(),
                self@.token,
                PayloadView::Search(sent_options(options@)),
            ),
    {
        let url = on_search_host(endpoint("/bots/search"));
        match self.build_request(Method::Post, url) {
            Some(request) => Some(
                Request { payload: Payload::Search(options.or_wildcard()), ..request },
            ),
            None => None,
        }
    }
}

} // verus!
