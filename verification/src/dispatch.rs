//! The async-dispatcher transport: every event with a credential becomes one
//! independent request, scheduled on a cooperative runtime and forgotten.
//!
//! This module decides which requests exist; scheduling them is left to the
//! caller, who reports whether the runtime takes new work.

use vstd::prelude::*;
use crate::configuration::text;
use crate::errors::ConstructionError;
use crate::transport::{header_for, Accepted, DeliveryRequest, Transport, TransportConfig, TransportEvent};

verus! {

/// The state of an async-dispatcher transport.
pub struct TokioTransport {
    endpoint: String,
    builder: Option<reqwest::ClientBuilder>,
    scheduled: Vec<DeliveryRequest>,
    accepted: Ghost<Seq<Accepted>>,
}

/// `request` delivers `entry` to `endpoint`.
pub open spec fn delivers(endpoint: Seq<char>, entry: Accepted, request: DeliveryRequest) -> bool {
    &&& request.endpoint@ == endpoint
    &&& text(request.access_token) == header_for(entry.0)
    &&& request.payload == entry.1
}

impl TokioTransport {
    /// The endpoint requests go to.
    pub closed spec fn endpoint_view(&self) -> Seq<char> {
        self.endpoint@
    }

    /// The requests not yet handed to the runtime, oldest first.
    pub closed spec fn scheduled(&self) -> Seq<DeliveryRequest> {
        self.scheduled@
    }

    /// Whether the HTTP client settings are still held.
    pub closed spec fn has_builder(&self) -> bool {
        self.builder is Some
    }

    /// `after` is `self` with one more request scheduled, the one that
    /// delivers `entry`, and nothing else changed.
    pub open spec fn scheduled_as_newest(&self, entry: Accepted, after: Self) -> bool {
        &&& after.accepted() == self.accepted().push(entry)
        &&& after.scheduled().len() == self.scheduled().len() + 1
        &&& after.scheduled().drop_last() == self.scheduled()
        &&& delivers(self.endpoint_view(), entry, after.scheduled().last())
        &&& after.endpoint_view() == self.endpoint_view()
        &&& after.has_builder() == self.has_builder()
    }

    /// The request for `event`, or `None` if it carries no credential.
    pub fn dispatch(endpoint: &str, event: TransportEvent) -> (r: Option<DeliveryRequest>)
        ensures
            event.config.access_token is None <==> r is None,
            event.config.access_token matches Some(token) ==> {
                &&& r matches Some(request)
                &&& delivers(endpoint@, (token@, event.payload), request)
            },
    {
        let TransportEvent { config, payload } = event;
        match &config.access_token {
            Some(token) => Some(DeliveryRequest::new(endpoint, token.clone(), payload)),
            None => None,
        }
    }

    /// Hands out the requests to schedule, oldest first, and forgets them.
    /// Where the runtime takes no new work they are dropped instead.
    pub fn take_scheduled(&mut self, runtime_accepts: bool) -> (requests: Vec<DeliveryRequest>)
        ensures
            requests@ == (if runtime_accepts {
                old(self).scheduled()
            } else {
                Seq::<DeliveryRequest>::empty()
            }),
            final(self).scheduled().len() == 0,
            final(self).accepted() == old(self).accepted(),
            final(self).endpoint_view() == old(self).endpoint_view(),
            final(self).has_builder() == old(self).has_builder(),
    {
        let mut requests: Vec<DeliveryRequest> = Vec::new();
        if runtime_accepts {
            std::mem::swap(&mut self.scheduled, &mut requests);
        } else {
            self.scheduled.clear();
        }
        requests
    }

    /// The endpoint requests go to.
    pub fn endpoint(&self) -> (e: &str)
        ensures
            e@ == self.endpoint_view(),
    {
        self.endpoint.as_str()
    }

    /// Hands out the HTTP client settings, once.
    pub fn take_builder(&mut self) -> (b: Option<reqwest::ClientBuilder>)
        ensures
            b is Some == old(self).has_builder(),
            !final(self).has_builder(),
            final(self).scheduled() == old(self).scheduled(),
            final(self).accepted() == old(self).accepted(),
            final(self).endpoint_view() == old(self).endpoint_view(),
    {
        self.builder.take()
    }
}

impl Transport for TokioTransport {
    open spec fn wf(&self) -> bool {
        true
    }

    closed spec fn accepted(&self) -> Seq<Accepted> {
        self.accepted@
    }

    /// An event with a credential becomes one more scheduled request. An
    /// event without one leaves the transport as it is.
    open spec fn sends(&self, token: Option<Seq<char>>, payload: crate::models::Item, after: Self) -> bool {
        match token {
            Some(t) => self.scheduled_as_newest((t, payload), after),
            None => after == *self,
        }
    }

    fn new(config: &TransportConfig) -> (r: Result<Self, ConstructionError>)
        ensures
            r matches Ok(t) ==> {
                &&& t.scheduled().len() == 0
                &&& t.endpoint_view() == config.endpoint@
                &&& t.has_builder()
            },
    {
        match config.client_builder() {
            Ok(builder) => Ok(
                TokioTransport {
                    endpoint: config.endpoint.clone(),
                    builder: Some(builder),
                    scheduled: Vec::new(),
                    accepted: Ghost(Seq::empty()),
                },
            ),
            Err(e) => Err(e),
        }
    }

    fn send(&mut self, event: TransportEvent)
        ensures
            final(self).endpoint_view() == old(self).endpoint_view(),
            final(self).has_builder() == old(self).has_builder(),
            event.config.access_token is None ==> final(self).scheduled() == old(self).scheduled(),
            event.config.access_token matches Some(token) ==> {
                &&& final(self).accepted() == old(self).accepted().push((token@, event.payload))
                &&& final(self).scheduled().len() == old(self).scheduled().len() + 1
                &&& final(self).scheduled().drop_last() == old(self).scheduled()
                &&& delivers(old(self).endpoint_view(), (token@, event.payload), final(self).scheduled().last())
            },
    {
        let ghost entry: Accepted = (text(event.config.access_token).unwrap(), event.payload);
        match TokioTransport::dispatch(self.endpoint.as_str(), event) {
            Some(request) => {
                self.accepted = Ghost(self.accepted@.push(entry));
                self.scheduled.push(request);
                assert(self.scheduled@.drop_last() =~= old(self).scheduled@);
            },
            None => {},
        }
    }
}

} // verus!
