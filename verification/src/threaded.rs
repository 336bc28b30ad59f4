//! The queued-worker transport: a bounded first-in first-out queue between
//! the callers of `send` and one background worker, with a bounded drain on
//! shutdown.
//!
//! This module decides; it performs no I/O. The worker asks `next_action`
//! what to do and carries it out.

use vstd::prelude::*;
use crate::errors::ConstructionError;
use crate::models::Item;
use crate::transport::{Accepted, DeliveryRequest, Transport, TransportConfig, TransportEvent};

verus! {

/// The most entries the queue holds at any time.
pub const QUEUE_CAPACITY: usize = 100;

/// How long shutdown waits for the worker to stop, in milliseconds.
pub const SHUTDOWN_TIMEOUT_MILLIS: u64 = 5000;

/// Where the transport is in its life.
#[derive(Clone, Copy, Debug, PartialEq, Eq, Structural)]
pub enum WorkerState {
    /// Taking on events and delivering them.
    Running,
    /// Shutdown was requested: nothing new is taken on, the queue is drained.
    Draining,
    /// The worker has stopped or was given up on; nothing is queued.
    Stopped,
}

/// What became of an event offered to the queue.
pub enum Offer {
    /// It was queued as the newest entry.
    Queued,
    /// The queue is full; the event is handed back.
    Full(String, Item),
    /// The transport is shutting down or stopped; the event is handed back.
    Closed(String, Item),
}

/// What the worker does next.
pub enum WorkerAction {
    /// Issue this request, then ask again.
    Deliver(DeliveryRequest),
    /// Nothing is queued: wait for an event or for shutdown, then ask again.
    Wait,
    /// Leave the loop.
    Exit,
}

/// How a shutdown ended.
#[derive(Clone, Copy, Debug, PartialEq, Eq, Structural)]
pub enum DrainOutcome {
    /// The worker emptied the queue and stopped in time.
    Drained,
    /// The wait ran out; this many queued events were discarded.
    TimedOut(usize),
}

/// The queued entries as credential and record, oldest first.
pub open spec fn entries_of(pending: Seq<(String, Item)>) -> Seq<Accepted> {
    pending.map_values(|e: (String, Item)| (e.0@, e.1))
}

/// The state of a queued-worker transport.
pub struct ThreadedTransport {
    endpoint: String,
    builder: Option<reqwest::ClientBuilder>,
    pending: Vec<(String, Item)>,
    state: WorkerState,
    accepted: Ghost<Seq<Accepted>>,
    delivered: Ghost<Seq<Accepted>>,
    discarded: Ghost<Seq<Accepted>>,
}

impl ThreadedTransport {
    /// The endpoint requests go to.
    pub closed spec fn endpoint_view(&self) -> Seq<char> {
        self.endpoint@
    }

    /// The entries waiting in the queue, oldest first.
    pub closed spec fn queued(&self) -> Seq<Accepted> {
        entries_of(self.pending@)
    }

    /// Where the transport is in its life.
    pub closed spec fn phase(&self) -> WorkerState {
        self.state
    }

    /// The entries handed to the worker so far, in the order it got them.
    pub closed spec fn delivered(&self) -> Seq<Accepted> {
        self.delivered@
    }

    /// The entries given up on when a shutdown timed out.
    pub closed spec fn discarded(&self) -> Seq<Accepted> {
        self.discarded@
    }

    /// Whether the HTTP client settings are still held.
    pub closed spec fn has_builder(&self) -> bool {
        self.builder is Some
    }

    /// The queue is within its capacity; every entry taken on was delivered,
    /// is queued or was discarded, in that order; and a stopped transport
    /// has nothing queued.
    pub closed spec fn inv(&self) -> bool {
        &&& self.pending@.len() <= QUEUE_CAPACITY
        &&& self.accepted@ == self.delivered@ + self.discarded@ + entries_of(self.pending@)
        &&& self.state == WorkerState::Stopped ==> self.pending@.len() == 0
        &&& self.discarded@.len() > 0 ==> self.state == WorkerState::Stopped
    }

    /// Whether the transport takes on what it is offered: it is running and
    /// the queue has room.
    pub open spec fn takes_on(&self) -> bool {
        self.phase() == WorkerState::Running && self.queued().len() < QUEUE_CAPACITY
    }

    /// `after` is `self` with `entry` queued as the newest, and nothing else
    /// changed.
    pub open spec fn queued_as_newest(&self, entry: Accepted, after: Self) -> bool {
        &&& after.queued() == self.queued().push(entry)
        &&& after.accepted() == self.accepted().push(entry)
        &&& after.phase() == self.phase()
        &&& after.delivered() == self.delivered()
        &&& after.discarded() == self.discarded()
        &&& after.endpoint_view() == self.endpoint_view()
        &&& after.has_builder() == self.has_builder()
    }

    /// The request that delivers `entry` to `endpoint`.
    pub open spec fn request_for(endpoint: Seq<char>, entry: Accepted, request: DeliveryRequest) -> bool {
        &&& request.endpoint@ == endpoint
        &&& crate::configuration::text(request.access_token) == crate::transport::header_for(entry.0)
        &&& request.payload == entry.1
    }

    /// Offers an event to the queue. It is queued if the transport is
    /// running and the queue has room, and handed back otherwise.
    pub fn offer(&mut self, token: String, payload: Item) -> (r: Offer)
        requires
            old(self).wf(),
        ensures
            final(self).wf(),
            final(self).phase() == old(self).phase(),
            final(self).delivered() == old(self).delivered(),
            final(self).discarded() == old(self).discarded(),
            final(self).endpoint_view() == old(self).endpoint_view(),
            final(self).has_builder() == old(self).has_builder(),
            old(self).phase() != WorkerState::Running ==> r == Offer::Closed(token, payload),
            old(self).phase() == WorkerState::Running && old(self).queued().len() >= QUEUE_CAPACITY
                ==> r == Offer::Full(token, payload),
            old(self).phase() == WorkerState::Running && old(self).queued().len() < QUEUE_CAPACITY
                ==> r is Queued,
            r is Queued ==> {
                &&& final(self).queued() == old(self).queued().push((token@, payload))
                &&& final(self).accepted() == old(self).accepted().push((token@, payload))
            },
            !(r is Queued) ==> *final(self) == *old(self),
    {
        match self.state {
            WorkerState::Running => {
                if self.pending.len() >= QUEUE_CAPACITY {
                    Offer::Full(token, payload)
                } else {
                    proof {
                        assert(entries_of(self.pending@.push((token, payload))) =~= entries_of(
                            self.pending@,
                        ).push((token@, payload)));
                        assert(self.delivered@ + self.discarded@ + entries_of(self.pending@).push(
                            (token@, payload),
                        ) =~= self.accepted@.push((token@, payload)));
                    }
                    self.accepted = Ghost(self.accepted@.push((token@, payload)));
                    self.pending.push((token, payload));
                    Offer::Queued
                }
            },
            _ => Offer::Closed(token, payload),
        }
    }

    /// Offers `event` to the queue if it carries a credential. Without one
    /// nothing happens and `None` is returned.
    pub fn try_send(&mut self, event: TransportEvent) -> (r: Option<Offer>)
        requires
            old(self).wf(),
        ensures
            final(self).wf(),
            final(self).phase() == old(self).phase(),
            final(self).delivered() == old(self).delivered(),
            final(self).discarded() == old(self).discarded(),
            final(self).endpoint_view() == old(self).endpoint_view(),
            final(self).has_builder() == old(self).has_builder(),
            event.config.access_token is None <==> r is None,
            r matches Some(Offer::Queued) <==> event.config.access_token is Some && old(self).phase()
                == WorkerState::Running && old(self).queued().len() < QUEUE_CAPACITY,
            r matches Some(Offer::Full(token, payload)) ==> payload == event.payload && Some(token@)
                == crate::configuration::text(event.config.access_token) && old(self).phase()
                == WorkerState::Running,
            r matches Some(Offer::Closed(token, payload)) ==> payload == event.payload && Some(token@)
                == crate::configuration::text(event.config.access_token) && old(self).phase()
                != WorkerState::Running,
            r matches Some(Offer::Queued) ==> {
                let entry = (crate::configuration::text(event.config.access_token)->0, event.payload);
                &&& final(self).accepted() == old(self).accepted().push(entry)
                &&& final(self).queued() == old(self).queued().push(entry)
            },
            !(r matches Some(Offer::Queued)) ==> *final(self) == *old(self),
    {
        let TransportEvent { config, payload } = event;
        match &config.access_token {
            Some(token) => Some(self.offer(token.clone(), payload)),
            None => None,
        }
    }

    /// Tells the worker what to do next. The oldest queued entry is
    /// delivered first; an empty queue means waiting while running and
    /// stopping once shutdown was requested.
    pub fn next_action(&mut self) -> (action: WorkerAction)
        requires
            old(self).wf(),
        ensures
            final(self).wf(),
            final(self).accepted() == old(self).accepted(),
            final(self).discarded() == old(self).discarded(),
            final(self).endpoint_view() == old(self).endpoint_view(),
            final(self).has_builder() == old(self).has_builder(),
            old(self).queued().len() > 0 ==> {
                &&& action matches WorkerAction::Deliver(request)
                &&& Self::request_for(old(self).endpoint_view(), old(self).queued()[0], request)
                &&& final(self).queued() == old(self).queued().drop_first()
                &&& final(self).delivered() == old(self).delivered().push(old(self).queued()[0])
                &&& final(self).phase() == old(self).phase()
            },
            old(self).queued().len() == 0 ==> {
                &&& final(self).queued() == old(self).queued()
                &&& final(self).delivered() == old(self).delivered()
                &&& old(self).phase() == WorkerState::Running ==> action is Wait && final(self).phase()
                    == WorkerState::Running
                &&& old(self).phase() != WorkerState::Running ==> action is Exit && final(self).phase()
                    == WorkerState::Stopped
            },
    {
        if self.pending.len() > 0 {
            let ghost before = self.pending@;
            let (token, payload) = self.pending.remove(0);
            proof {
                let first = (token@, payload);
                assert(entries_of(before)[0] == first);
                assert(entries_of(self.pending@) =~= entries_of(before).drop_first());
                assert(self.discarded@.len() == 0);
                assert(self.delivered@.push(first) + self.discarded@ + entries_of(self.pending@)
                    =~= self.delivered@ + self.discarded@ + entries_of(before));
            }
            self.delivered = Ghost(self.delivered@.push((token@, payload)));
            WorkerAction::Deliver(DeliveryRequest::new(self.endpoint.as_str(), token, payload))
        } else {
            match self.state {
                WorkerState::Running => WorkerAction::Wait,
                _ => {
                    self.state = WorkerState::Stopped;
                    WorkerAction::Exit
                },
            }
        }
    }

    /// Requests shutdown: a running transport starts draining. Nothing
    /// queued is lost, and nothing new is taken on from here.
    pub fn shutdown(&mut self)
        requires
            old(self).wf(),
        ensures
            final(self).wf(),
            final(self).phase() == (if old(self).phase() == WorkerState::Running {
                WorkerState::Draining
            } else {
                old(self).phase()
            }),
            final(self).queued() == old(self).queued(),
            final(self).accepted() == old(self).accepted(),
            final(self).delivered() == old(self).delivered(),
            final(self).discarded() == old(self).discarded(),
            final(self).endpoint_view() == old(self).endpoint_view(),
            final(self).has_builder() == old(self).has_builder(),
    {
        match self.state {
            WorkerState::Running => {
                self.state = WorkerState::Draining;
            },
            _ => {},
        }
    }

    /// Ends the wait for the worker. If it has stopped, the queue was
    /// drained. If not, the wait has run out: what is still queued is
    /// discarded and the transport counts as stopped, so that the worker
    /// exits the next time it asks.
    pub fn conclude(&mut self) -> (outcome: DrainOutcome)
        requires
            old(self).wf(),
        ensures
            final(self).wf(),
            final(self).phase() == WorkerState::Stopped,
            final(self).queued().len() == 0,
            final(self).accepted() == old(self).accepted(),
            final(self).delivered() == old(self).delivered(),
            final(self).discarded() == old(self).discarded() + old(self).queued(),
            final(self).endpoint_view() == old(self).endpoint_view(),
            final(self).has_builder() == old(self).has_builder(),
            outcome == (if old(self).phase() == WorkerState::Stopped {
                DrainOutcome::Drained
            } else {
                DrainOutcome::TimedOut(old(self).queued().len() as usize)
            }),
    {
        match self.state {
            WorkerState::Stopped => {
                proof {
                    assert(self.discarded@ + entries_of(self.pending@) =~= self.discarded@);
                }
                DrainOutcome::Drained
            },
            _ => {
                let left = self.pending.len();
                proof {
                    assert(self.discarded@.len() == 0);
                    assert(self.delivered@ + (self.discarded@ + entries_of(self.pending@)) + Seq::<
                        Accepted,
                    >::empty() =~= self.accepted@);
                    assert(entries_of(Seq::<(String, Item)>::empty()) =~= Seq::<Accepted>::empty());
                }
                self.discarded = Ghost(self.discarded@ + entries_of(self.pending@));
                self.pending.clear();
                self.state = WorkerState::Stopped;
                DrainOutcome::TimedOut(left)
            },
        }
    }

    /// Where the transport is in its life.
    pub fn state(&self) -> (s: WorkerState)
        ensures
            s == self.phase(),
    {
        self.state
    }

    /// How many entries are queued.
    pub fn len(&self) -> (n: usize)
        ensures
            n == self.queued().len(),
    {
        self.pending.len()
    }

    /// The endpoint requests go to.
    pub fn endpoint(&self) -> (e: &str)
        ensures
            e@ == self.endpoint_view(),
    {
        self.endpoint.as_str()
    }

    /// Hands out the HTTP client settings, once.
    pub fn take_builder(&mut self) -> (b: Option<reqwest::ClientBuilder>)
        ensures
            b is Some == old(self).has_builder(),
            !final(self).has_builder(),
            final(self).wf() == old(self).wf(),
            final(self).phase() == old(self).phase(),
            final(self).queued() == old(self).queued(),
            final(self).accepted() == old(self).accepted(),
            final(self).delivered() == old(self).delivered(),
            final(self).discarded() == old(self).discarded(),
            final(self).endpoint_view() == old(self).endpoint_view(),
    {
        self.builder.take()
    }
}

impl Transport for ThreadedTransport {
    closed spec fn wf(&self) -> bool {
        self.inv()
    }

    closed spec fn accepted(&self) -> Seq<Accepted> {
        self.accepted@
    }

    /// An event with a credential is queued as the newest entry while the
    /// transport is running and the queue has room. Every other event
    /// leaves the transport as it is.
    open spec fn sends(&self, token: Option<Seq<char>>, payload: Item, after: Self) -> bool {
        match token {
            Some(t) => if self.takes_on() {
                self.queued_as_newest((t, payload), after)
            } else {
                after == *self
            },
            None => after == *self,
        }
    }

    fn new(config: &TransportConfig) -> (r: Result<Self, ConstructionError>)
        ensures
            r matches Ok(t) ==> {
                &&& t.phase() == WorkerState::Running
                &&& t.queued().len() == 0
                &&& t.delivered().len() == 0
                &&& t.discarded().len() == 0
                &&& t.endpoint_view() == config.endpoint@
                &&& t.has_builder()
            },
    {
        match config.client_builder() {
            Ok(builder) => {
                let t = ThreadedTransport {
                    endpoint: config.endpoint.clone(),
                    builder: Some(builder),
                    pending: Vec::new(),
                    state: WorkerState::Running,
                    accepted: Ghost(Seq::empty()),
                    delivered: Ghost(Seq::empty()),
                    discarded: Ghost(Seq::empty()),
                };
                assert(t.delivered@ + t.discarded@ + entries_of(t.pending@) =~= t.accepted@);
                Ok(t)
            },
            Err(e) => Err(e),
        }
    }

    fn send(&mut self, event: TransportEvent)
        ensures
            final(self).phase() == old(self).phase(),
            final(self).endpoint_view() == old(self).endpoint_view(),
            final(self).has_builder() == old(self).has_builder(),
            final(self).delivered() == old(self).delivered(),
            final(self).discarded() == old(self).discarded(),
            event.config.access_token matches Some(token) ==> {
                if old(self).phase() == WorkerState::Running && old(self).queued().len() < QUEUE_CAPACITY {
                    &&& final(self).accepted() == old(self).accepted().push((token@, event.payload))
                    &&& final(self).queued() == old(self).queued().push((token@, event.payload))
                } else {
                    &&& final(self).accepted() == old(self).accepted()
                    &&& final(self).queued() == old(self).queued()
                }
            },
            event.config.access_token is None ==> final(self).queued() == old(self).queued(),
    {
        let _ = self.try_send(event);
    }
}

/// How much of the shutdown wait is left after `elapsed_millis`, or `None`
/// once the wait has run out.
pub fn remaining_wait(elapsed_millis: u64) -> (left: Option<u64>)
    ensures
        left == (if elapsed_millis < SHUTDOWN_TIMEOUT_MILLIS {
            Some((SHUTDOWN_TIMEOUT_MILLIS - elapsed_millis) as u64)
        } else {
            None
        }),
{
    if elapsed_millis < SHUTDOWN_TIMEOUT_MILLIS {
        Some(SHUTDOWN_TIMEOUT_MILLIS - elapsed_millis)
    } else {
        None
    }
}

/// Entries reach the worker in the order in which they were taken on: what
/// was delivered is an initial part of what was accepted, so of two accepted
/// entries the later is never delivered without the earlier.
pub proof fn lemma_delivery_in_order(t: ThreadedTransport, i: int, j: int)
    requires
        t.wf(),
        0 <= i <= j < t.delivered().len(),
    ensures
        t.delivered().len() <= t.accepted().len(),
        t.delivered() == t.accepted().take(t.delivered().len() as int),
        t.delivered()[i] == t.accepted()[i],
        t.delivered()[j] == t.accepted()[j],
{
    assert(t.delivered() =~= t.accepted().take(t.delivered().len() as int));
}

/// Every entry taken on is accounted for: it was delivered, it was discarded
/// by a shutdown that timed out, or it is still queued. The queue never
/// holds more than its capacity.
pub proof fn lemma_nothing_lost(t: ThreadedTransport)
    requires
        t.wf(),
    ensures
        t.accepted() == t.delivered() + t.discarded() + t.queued(),
        t.queued().len() <= QUEUE_CAPACITY,
        t.discarded().len() > 0 ==> t.phase() == WorkerState::Stopped,
{
}

/// A stopped transport has nothing queued, and if nothing was discarded
/// every entry it ever took on was delivered.
pub proof fn lemma_stopped_is_drained(t: ThreadedTransport)
    requires
        t.wf(),
        t.phase() == WorkerState::Stopped,
    ensures
        t.queued().len() == 0,
        t.accepted() == t.delivered() + t.discarded(),
        t.discarded().len() == 0 ==> t.accepted() == t.delivered(),
{
    assert(t.queued() =~= Seq::<Accepted>::empty());
    assert(t.delivered() + t.discarded() + t.queued() =~= t.delivered() + t.discarded());
    if t.discarded().len() == 0 {
        assert(t.delivered() + t.discarded() =~= t.delivered());
    }
}

} // verus!
