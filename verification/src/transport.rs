//! What is common to all delivery strategies: the transport settings, the
//! event handed to a transport and the request a transport issues for it.

use vstd::prelude::*;
use crate::configuration::{text, Configuration};
use crate::errors::{ConstructionError, ErrorKind};
use crate::http::{
    builder_with_gzip, builder_with_proxy, builder_with_timeout, builder_with_user_agent, header_accepts,
    header_text, new_builder, parse_proxy, proxy_url_accepted,
};
use crate::models::Item;

verus! {

/// The collection endpoint used unless another is configured.
pub open spec fn default_endpoint() -> Seq<char> {
    "https://api.rollbar.com/api/1/item/"@
}

/// The user agent every request is sent with.
pub open spec fn user_agent() -> Seq<char> {
    "SierraSoftworks/rollbar-rs v0.1.0"@
}

/// The request timeout used unless another is configured, in milliseconds.
pub const DEFAULT_TIMEOUT_MILLIS: u64 = 10000;

/// Where and how a transport delivers.
pub struct TransportConfig {
    pub endpoint: String,
    /// Request timeout in milliseconds.
    pub timeout_millis: u64,
    /// Outbound proxy URL, if requests go through one.
    pub proxy: Option<String>,
}

impl Default for TransportConfig {
    fn default() -> (config: TransportConfig)
        ensures
            config.endpoint@ == default_endpoint(),
            config.timeout_millis == DEFAULT_TIMEOUT_MILLIS,
            config.proxy is None,
    {
        TransportConfig {
            endpoint: "https://api.rollbar.com/api/1/item/".to_owned(),
            timeout_millis: DEFAULT_TIMEOUT_MILLIS,
            proxy: None,
        }
    }
}

impl TransportConfig {
    /// Whether a transport can be constructed from these settings as far as
    /// the settings themselves decide it: the proxy, if any, is a usable URL.
    pub open spec fn usable(&self) -> bool {
        self.proxy matches Some(url) ==> proxy_url_accepted(url@)
    }

    /// An independent copy of the settings.
    pub fn duplicate(&self) -> (copy: TransportConfig)
        ensures
            copy.endpoint@ == self.endpoint@,
            copy.timeout_millis == self.timeout_millis,
            text(copy.proxy) == text(self.proxy),
    {
        TransportConfig {
            endpoint: self.endpoint.clone(),
            timeout_millis: self.timeout_millis,
            proxy: crate::configuration::copy_text(&self.proxy),
        }
    }

    /// Assembles the HTTP client settings: gzip accepted, the configured
    /// timeout, the fixed user agent and the proxy, if one is configured.
    ///
    /// Fails with `InvalidProxy` exactly when the proxy is not a usable URL.
    /// No network I/O takes place.
    pub fn client_builder(&self) -> (r: Result<reqwest::ClientBuilder, ConstructionError>)
        ensures
            r is Ok <==> self.usable(),
            r matches Err(e) ==> {
                &&& e.kind == ErrorKind::InvalidProxy
                &&& e.description@ == ErrorKind::InvalidProxy.description()
                &&& e.advice@ == ErrorKind::InvalidProxy.advice()
                &&& e.internal is Some
            },
    {
        let builder = builder_with_gzip(new_builder(), true);
        let builder = builder_with_timeout(builder, self.timeout_millis);
        let builder = builder_with_user_agent(builder, user_agent_name());
        match &self.proxy {
            Some(url) => match parse_proxy(url.as_str()) {
                Ok(proxy) => Ok(builder_with_proxy(builder, proxy)),
                Err(cause) => Err(ConstructionError::caused_by(ErrorKind::InvalidProxy, cause)),
            },
            None => Ok(builder),
        }
    }
}

/// A normalized record on its way to a transport, with the configuration
/// that holds the credential for it.
pub struct TransportEvent<'a> {
    pub config: &'a Configuration,
    pub payload: Item,
}

/// One HTTP POST: the JSON form of `payload`, wrapped as `data`, goes to
/// `endpoint`. The credential travels in the access-token header, marked
/// sensitive; the header is left out where the credential cannot be written
/// as a header value.
pub struct DeliveryRequest {
    pub endpoint: String,
    pub access_token: Option<String>,
    pub payload: Item,
}

/// The name of the header that carries the credential.
pub open spec fn token_header() -> Seq<char> {
    "X-Rollbar-Access-Token"@
}

/// Returns [`token_header`].
pub fn token_header_name() -> (name: &'static str)
    ensures
        name@ == token_header(),
{
    "X-Rollbar-Access-Token"
}

/// Returns [`user_agent`].
pub fn user_agent_name() -> (name: &'static str)
    ensures
        name@ == user_agent(),
{
    "SierraSoftworks/rollbar-rs v0.1.0"
}

/// The header value a request carries for credential `token`.
pub open spec fn header_for(token: Seq<char>) -> Option<Seq<char>> {
    if header_text(token) {
        Some(token)
    } else {
        None
    }
}

impl DeliveryRequest {
    /// The request that delivers `payload` to `endpoint` under `token`.
    pub fn new(endpoint: &str, token: String, payload: Item) -> (request: DeliveryRequest)
        ensures
            request.endpoint@ == endpoint@,
            text(request.access_token) == header_for(token@),
            request.payload == payload,
    {
        let access_token = if header_accepts(token.as_str()) {
            Some(token)
        } else {
            None
        };
        DeliveryRequest { endpoint: endpoint.to_owned(), access_token, payload }
    }
}

/// What a transport has taken on for delivery: the credential and the record.
pub type Accepted = (Seq<char>, Item);

/// A delivery strategy. `send` is fire-and-forget: it reports nothing back
/// and never waits for the network.
pub trait Transport: Sized {
    /// The invariant of the transport.
    spec fn wf(&self) -> bool;

    /// Everything the transport has taken on so far, oldest first.
    spec fn accepted(&self) -> Seq<Accepted>;

    /// What this strategy makes of an event: whether sending `payload`
    /// under the credential `token` takes the transport from `self` to
    /// `after`.
    spec fn sends(&self, token: Option<Seq<char>>, payload: Item, after: Self) -> bool;

    /// Constructs a transport. Fails exactly when the settings are not
    /// usable; a new transport has taken on nothing.
    fn new(config: &TransportConfig) -> (r: Result<Self, ConstructionError>)
        ensures
            r is Ok <==> config.usable(),
            r matches Ok(t) ==> t.wf() && t.accepted() == Seq::<Accepted>::empty(),
            r matches Err(e) ==> e.kind == ErrorKind::InvalidProxy;

    /// Hands `event` over for delivery. Without a credential this does
    /// nothing at all. With one, the event is taken on as the newest, or
    /// dropped where the transport cannot take it.
    fn send(&mut self, event: TransportEvent)
        requires
            old(self).wf(),
        ensures
            final(self).wf(),
            old(self).sends(text(event.config.access_token), event.payload, *final(self)),
            event.config.access_token is None ==> *final(self) == *old(self),
            event.config.access_token matches Some(token) ==> {
                ||| final(self).accepted() == old(self).accepted()
                ||| final(self).accepted() == old(self).accepted().push((token@, event.payload))
            };
}

} // verus!
