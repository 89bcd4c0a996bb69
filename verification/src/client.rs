//! The client: a token, a bot identifier and an HTTP transport, fixed when
//! the client is made. An operation yields the request to send; none changes
//! the client.
//!
//! This module holds what every deployment needs: making a client and
//! setting the guild count. The operations that the service does not
//! document build on `build_request` from a module of their own.

use crate::endpoint::{endpoint, guild_count_url, guilds_path_string, with_guild_count};
use crate::http::{request_of, ClientError, Method, Payload, PayloadView, Request, RequestView};
use crate::wire::chars_of;
use reqwest::Client;
use std::time::Duration;
use vstd::prelude::*;

verus! {

/// The HTTP client of `reqwest`. Nothing is known of its inside.
#[verifier::external_type_specification]
#[verifier::external_body]
pub struct ExClient(reqwest::Client);

/// The error type of `reqwest`. Nothing is known of its inside.
#[verifier::external_type_specification]
#[verifier::external_body]
pub struct ExTransportError(reqwest::Error);

/// Calls `Client::builder`, sets the user agent and the timeout, and calls
/// `ClientBuilder::build`. Whether that succeeds depends on the machine's
/// TLS setup, so nothing is claimed of the outcome.
#[verifier::external_body]
fn build_transport(user_agent: &str, timeout: Duration) -> Result<Client, reqwest::Error> {
    Client::builder().user_agent(user_agent).timeout(timeout).build()
}

/// The request that `method` at `url` with `payload` makes for a client with
/// the token `bearer`, where there is a URL.
pub open spec fn request_to(
    method: Method,
    url: Option<Seq<char>>,
    bearer: Seq<char>,
    payload: PayloadView,
) -> Option<RequestView> {
    match url {
        Some(url) => Some(RequestView { method, url, bearer, payload }),
        None => None,
    }
}

/// A client for the discordlist.gg API.
pub struct DiscordlistClient {
    token: String,
    client: Client,
    bot_id: u64,
    timeout: Duration,
}

/// What a [`DiscordlistClient`] holds: its token, its bot and its timeout as
/// mathematical values, and the transport that it was made with.
pub struct ClientView {
    pub token: Seq<char>,
    pub bot_id: u64,
    pub timeout: Duration,
    pub transport: Client,
}

impl View for DiscordlistClient {
    type V = ClientView;

    closed spec fn view(&self) -> ClientView {
        ClientView {
            token: self.token@,
            bot_id: self.bot_id,
            timeout: self.timeout,
            transport: self.client,
        }
    }
}

impl DiscordlistClient {
    /// The user agent that every request of this library carries.
    pub const USER_AGENT: &'static str = "discordlist-rs/0.1.0";

    /// Makes a client around the outcome of setting up the transport: the
    /// client that holds that transport where it succeeded, `TransportInit`
    /// where it failed.
    pub fn with_transport(
        token: String,
        bot_id: u64,
        timeout: Duration,
        transport: Result<Client, reqwest::Error>,
    ) -> (r: Result<DiscordlistClient, ClientError>)
        ensures
            transport matches Ok(made) ==> r is Ok && r->Ok_0@ == (ClientView {
                token: token@,
                bot_id,
                timeout,
                transport: made,
            }),
            transport is Err ==> r == Err::<DiscordlistClient, ClientError>(ClientError::TransportInit),
    {
        match transport {
            Ok(client) => Ok(DiscordlistClient { token, client, bot_id, timeout }),
            Err(_) => Err(ClientError::TransportInit),
        }
    }

    /// What the transport of a client with the timeout `timeout` is set up
    /// with: the user agent of this library, and that timeout.
    pub fn transport_settings(timeout: Duration) -> (r: (&'static str, Duration))
        ensures
            r.0@ == Self::USER_AGENT@,
            r.1 == timeout,
    {
        (Self::USER_AGENT, timeout)
    }

    /// Makes a client for the bot `bot_id` that authenticates with `token`
    /// and gives up on a request after `timeout`. The token is the bare
    /// token, without `Bearer` or `Bot` in front.
    ///
    /// Fails with `TransportInit`, and with no other error, where the HTTP
    /// stack cannot be set up.
    pub fn new(token: String, bot_id: u64, timeout: Duration) -> (r: Result<
        DiscordlistClient,
        ClientError,
    >)
        ensures
            r matches Ok(c) ==> c@.token == token@ && c@.bot_id == bot_id && c@.timeout
                == timeout,
            r matches Err(e) ==> e == ClientError::TransportInit,
    {
        let settings = Self::transport_settings(timeout);
        let transport = build_transport(settings.0, settings.1);
        Self::with_transport(token, bot_id, timeout, transport)
    }

    /// The token used to make API calls.
    pub fn get_token(&self) -> (r: &str)
        ensures
            r@ == self@.token,
    {
        self.token.as_str()
    }

    /// The identifier of the bot that this client speaks for.
    pub fn get_bot_id(&self) -> (r: u64)
        ensures
            r == self@.bot_id,
    {
        self.bot_id
    }

    /// The time after which a request is given up.
    pub fn get_timeout(&self) -> (r: Duration)
        ensures
            r == self@.timeout,
    {
        self.timeout
    }

    /// The transport over which the requests of this client are sent: the
    /// one that the client was made with.
    pub fn transport(&self) -> (r: &Client)
        ensures
            *r == self@.transport,
    {
        &self.client
    }

    /// The request that calls `method` at `url` in this client's name, where
    /// there is a URL. It carries the client's token and no body.
    pub fn build_request(&self, method: Method, url: Option<String>) -> (r: Option<Request>)
        ensures
            request_of(r) == request_to(method, chars_of(url), self@.token, PayloadView::Empty),
    {
        match url {
            Some(url) => Some(
                Request { method, url, bearer: self.token.clone(), payload: Payload::Empty },
            ),
            None => None,
        }
    }

    /// The request that sets the guild count shown on the bot's listing page:
    /// `PUT` on the guilds path of this client's bot, with the count as the
    /// query parameter `count`.
    pub fn set_guild_count(&self, guild_count: u64) -> (r: Option<Request>)
        ensures
            request_of(r) == request_to(
                Method::Put,
                guild_count_url(self@.bot_id, guild_count),
                self@.token,
                PayloadView::Empty,
            ),
    {
        let path = guilds_path_string(self.bot_id);
        let url = with_guild_count(endpoint(path.as_str()), guild_count);
        self.build_request(Method::Put, url)
    }
}

} // verus!
