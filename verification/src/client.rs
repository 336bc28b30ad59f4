//! A transport composed with a configuration: the entry point for reporting.

use vstd::prelude::*;
use crate::configuration::{text, Configuration, ConfigurationView};
use crate::dispatch::TokioTransport;
use crate::errors::ConstructionError;
use crate::models::{dropped, hyphenated, normalized, should_drop, Data, DataView, Item};
use crate::threaded::ThreadedTransport;
use crate::transport::{Accepted, Transport, TransportConfig, TransportEvent};

verus! {

/// Reports events through one transport under one configuration.
pub struct Client<T: Transport> {
    transport: T,
    config: Configuration,
}

/// `entry` is event `d` normalized under `c` on system `os`, paired with
/// the credential of `c`.
pub open spec fn reported(d: DataView, c: ConfigurationView, os: Seq<char>, entry: Accepted) -> bool {
    &&& Some(entry.0) == c.access_token
    &&& entry.1.data@.uuid is Some
    &&& entry.1.data@ == normalized(d, c, os, entry.1.data@.uuid->0)
    &&& d.uuid is None ==> hyphenated(entry.1.data@.uuid->0)
}

/// `item` is event `d` normalized under `c` on system `os`, with whatever
/// identifier was generated for it if it had none.
pub open spec fn normal_form(d: DataView, c: ConfigurationView, os: Seq<char>, item: Item) -> bool {
    &&& item.data@.uuid is Some
    &&& item.data@ == normalized(d, c, os, item.data@.uuid->0)
    &&& d.uuid is None ==> hyphenated(item.data@.uuid->0)
}

impl<T: Transport> Client<T> {
    /// The transport of the client.
    pub closed spec fn transport_view(&self) -> T {
        self.transport
    }

    /// The configuration of the client.
    pub closed spec fn config_view(&self) -> Configuration {
        self.config
    }

    /// The transport is well formed.
    pub open spec fn wf(&self) -> bool {
        self.transport_view().wf()
    }

    /// Composes a client. No I/O takes place.
    pub fn new(transport: T, config: Configuration) -> (client: Self)
        ensures
            client.transport_view() == transport,
            client.config_view() == config,
    {
        Client { transport, config }
    }

    /// The configuration of the client.
    pub fn config(&self) -> (c: &Configuration)
        ensures
            *c == self.config_view(),
    {
        &self.config
    }

    /// The transport of the client.
    pub fn transport(&self) -> (t: &T)
        ensures
            *t == self.transport_view(),
    {
        &self.transport
    }

    /// The transport of the client, for driving it.
    pub fn transport_mut(&mut self) -> (t: &mut T)
        ensures
            *t == old(self).transport_view(),
            final(self).transport_view() == *final(t),
            final(self).config_view() == old(self).config_view(),
    {
        &mut self.transport
    }

    /// Takes the client apart.
    pub fn into_parts(self) -> (parts: (T, Configuration))
        ensures
            parts.0 == self.transport_view(),
            parts.1 == self.config_view(),
    {
        (self.transport, self.config)
    }

    /// Filters `item` by severity and hands it to the transport if it
    /// survives.
    fn submit(&mut self, item: Item)
        requires
            old(self).wf(),
        ensures
            final(self).wf(),
            final(self).config_view() == old(self).config_view(),
            dropped(item.data.level, old(self).config_view().log_level) ==> final(self).transport_view()
                == old(self).transport_view(),
            !dropped(item.data.level, old(self).config_view().log_level) ==> old(
                self,
            ).transport_view().sends(
                text(old(self).config_view().access_token),
                item,
                final(self).transport_view(),
            ),
            dropped(item.data.level, old(self).config_view().log_level)
                || old(self).config_view().access_token is None ==> final(self).transport_view().accepted()
                == old(self).transport_view().accepted(),
            final(self).transport_view().accepted() == old(self).transport_view().accepted() || (
            old(self).config_view().access_token matches Some(token)
                && final(self).transport_view().accepted() == old(self).transport_view().accepted().push(
                (token@, item),
            )),
    {
        if should_drop(&item, &self.config) {
            return ;
        }
        self.transport.send(TransportEvent { config: &self.config, payload: item });
    }

    /// Reports an event: normalizes it under the client's configuration,
    /// drops it if its severity is below the configured minimum, and
    /// otherwise hands it to the transport. Nothing is returned.
    ///
    /// An event below the minimum, or reported without a credential, never
    /// reaches the transport.
    pub fn report(&mut self, data: Data, os: &str)
        requires
            old(self).wf(),
        ensures
            final(self).wf(),
            final(self).config_view() == old(self).config_view(),
            dropped(data.level, old(self).config_view().log_level) ==> final(self).transport_view() == old(
                self,
            ).transport_view(),
            !dropped(data.level, old(self).config_view().log_level) ==> exists|item: Item|
                {
                    &&& normal_form(data@, old(self).config_view()@, os@, item)
                    &&& #[trigger] old(self).transport_view().sends(
                        text(old(self).config_view().access_token),
                        item,
                        final(self).transport_view(),
                    )
                },
            dropped(data.level, old(self).config_view().log_level)
                || old(self).config_view().access_token is None ==> final(self).transport_view().accepted()
                == old(self).transport_view().accepted(),
            final(self).transport_view().accepted() == old(self).transport_view().accepted() || {
                &&& final(self).transport_view().accepted().len() == old(
                    self,
                ).transport_view().accepted().len() + 1
                &&& final(self).transport_view().accepted().drop_last() == old(
                    self,
                ).transport_view().accepted()
                &&& reported(data@, old(self).config_view()@, os@, final(self).transport_view().accepted().last())
            },
    {
        let item = Item::normalize(data, &self.config, os);
        let ghost handed = item;
        self.submit(item);
        proof {
            if !dropped(data.level, old(self).config_view().log_level) {
                assert(normal_form(data@, old(self).config_view()@, os@, handed));
                assert(old(self).transport_view().sends(
                    text(old(self).config_view().access_token),
                    handed,
                    self.transport_view(),
                ));
            }
            let before = old(self).transport_view().accepted();
            let after = self.transport_view().accepted();
            if after != before {
                assert(after.drop_last() =~= before);
            }
        }
    }

    /// Like [`Client::report`], with `fresh` as the identifier of an event
    /// that has none. The record that reaches the transport is then fully
    /// determined.
    pub fn report_with(&mut self, data: Data, os: &str, fresh: String)
        requires
            old(self).wf(),
        ensures
            final(self).wf(),
            final(self).config_view() == old(self).config_view(),
            dropped(data.level, old(self).config_view().log_level) ==> final(self).transport_view() == old(
                self,
            ).transport_view(),
            !dropped(data.level, old(self).config_view().log_level) ==> exists|item: Item|
                {
                    &&& item.data@ == normalized(data@, old(self).config_view()@, os@, fresh@)
                    &&& #[trigger] old(self).transport_view().sends(
                        text(old(self).config_view().access_token),
                        item,
                        final(self).transport_view(),
                    )
                },
            dropped(data.level, old(self).config_view().log_level)
                || old(self).config_view().access_token is None ==> final(self).transport_view().accepted()
                == old(self).transport_view().accepted(),
            final(self).transport_view().accepted() == old(self).transport_view().accepted() || {
                &&& final(self).transport_view().accepted().len() == old(
                    self,
                ).transport_view().accepted().len() + 1
                &&& final(self).transport_view().accepted().drop_last() == old(
                    self,
                ).transport_view().accepted()
                &&& Some(final(self).transport_view().accepted().last().0) == text(
                    old(self).config_view().access_token,
                )
                &&& final(self).transport_view().accepted().last().1.data@ == normalized(
                    data@,
                    old(self).config_view()@,
                    os@,
                    fresh@,
                )
            },
    {
        let item = Item::normalize_with(data, &self.config, os, fresh);
        let ghost handed = item;
        self.submit(item);
        proof {
            if !dropped(data.level, old(self).config_view().log_level) {
                assert(old(self).transport_view().sends(
                    text(old(self).config_view().access_token),
                    handed,
                    self.transport_view(),
                ));
            }
            let before = old(self).transport_view().accepted();
            let after = self.transport_view().accepted();
            if after != before {
                assert(after.drop_last() =~= before);
            }
        }
    }
}

impl Client<TokioTransport> {
    /// A client over an async dispatcher with the default transport
    /// settings, which name no proxy: construction succeeds.
    pub fn with_default_transport(config: Configuration) -> (r: Result<Self, ConstructionError>)
        ensures
            r matches Ok(client) && client.config_view() == config && client.transport_view().wf()
                && client.transport_view().accepted().len() == 0,
    {
        let settings = TransportConfig::default();
        match TokioTransport::new(&settings) {
            Ok(transport) => Ok(Client::new(transport, config)),
            Err(e) => Err(e),
        }
    }
}

impl Client<ThreadedTransport> {
    /// A client over a queued worker with the default transport settings,
    /// which name no proxy: construction succeeds.
    pub fn with_default_transport(config: Configuration) -> (r: Result<Self, ConstructionError>)
        ensures
            r matches Ok(client) && client.config_view() == config && client.transport_view().wf()
                && client.transport_view().accepted().len() == 0,
    {
        let settings = TransportConfig::default();
        match ThreadedTransport::new(&settings) {
            Ok(transport) => Ok(Client::new(transport, config)),
            Err(e) => Err(e),
        }
    }
}

} // verus!
