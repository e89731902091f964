//! The link registry: which remote callers are linked with the provider,
//! in which direction, and with what configuration.

use vstd::prelude::*;

use crate::assoc::AssocMap;
use crate::config::ConfigMap;

verus! {

/// The direction of a link, seen from this provider: `Source` entries are
/// callers this provider invokes (it is the link source), `Target` entries
/// are callers that invoke this provider (it is the link target).
#[derive(Clone, Copy, Debug, PartialEq, Eq, Structural)]
pub enum LinkDirection {
    Source,
    Target,
}

/// Two independent collections of link entries, each keyed by an opaque
/// caller identifier and carrying the configuration supplied when the link
/// was established. Identifiers are unique within each collection;
/// re-registering one replaces its configuration (last write wins, no
/// merge), and unregistering an absent one is a no-op, not an error.
pub struct LinkRegistry {
    /// Callers that invoke this provider (the provider is the link target).
    linked_from: AssocMap<ConfigMap>,
    /// Callers this provider invokes (the provider is the link source).
    linked_to: AssocMap<ConfigMap>,
}

impl LinkRegistry {
    /// The identifiers linked *to* this provider, with their configurations.
    pub closed spec fn linked_from_view(&self) -> Map<Seq<char>, Map<Seq<char>, Seq<char>>> {
        self.linked_from@
    }

    /// The identifiers this provider is linked *to*, with their configurations.
    pub closed spec fn linked_to_view(&self) -> Map<Seq<char>, Map<Seq<char>, Seq<char>>> {
        self.linked_to@
    }

    /// A registry with no links in either direction.
    pub fn new() -> (r: Self)
        ensures
            r.linked_from_view() == Map::<Seq<char>, Map<Seq<char>, Seq<char>>>::empty(),
            r.linked_to_view() == Map::<Seq<char>, Map<Seq<char>, Seq<char>>>::empty(),
    {
        LinkRegistry { linked_from: AssocMap::new(), linked_to: AssocMap::new() }
    }

    /// Records (or overwrites) `caller_id` among the callers that invoke
    /// this provider; the other direction is untouched.
    pub fn register_as_target(&mut self, caller_id: String, config: ConfigMap)
        ensures
            final(self).linked_from_view() == old(self).linked_from_view().insert(
                caller_id@,
                config@,
            ),
            final(self).linked_to_view() == old(self).linked_to_view(),
    {
        self.linked_from.insert(caller_id, config);
    }

    /// Records (or overwrites) `caller_id` among the callers this provider
    /// invokes; the other direction is untouched.
    pub fn register_as_source(&mut self, caller_id: String, config: ConfigMap)
        ensures
            final(self).linked_to_view() == old(self).linked_to_view().insert(
                caller_id@,
                config@,
            ),
            final(self).linked_from_view() == old(self).linked_from_view(),
    {
        self.linked_to.insert(caller_id, config);
    }

    /// Removes `caller_id` from the callers that invoke this provider;
    /// an absent identifier is a no-op, not an error.
    pub fn unregister_as_target(&mut self, caller_id: &str)
        ensures
            final(self).linked_from_view() == old(self).linked_from_view().remove(caller_id@),
            final(self).linked_to_view() == old(self).linked_to_view(),
    {
        self.linked_from.remove(caller_id);
    }

    /// Removes `caller_id` from the callers this provider invokes; an
    /// absent identifier is a no-op, not an error.
    pub fn unregister_as_source(&mut self, caller_id: &str)
        ensures
            final(self).linked_to_view() == old(self).linked_to_view().remove(caller_id@),
            final(self).linked_from_view() == old(self).linked_from_view(),
    {
        self.linked_to.remove(caller_id);
    }

    /// The configuration recorded for `caller_id` in the collection the
    /// direction names: `Target` reads the callers that invoke this
    /// provider, `Source` the callers it invokes. Read-only; the returned
    /// map is cloned, never a live reference.
    pub fn lookup(&self, caller_id: &str, direction: LinkDirection) -> (r: Option<ConfigMap>)
        ensures
            direction == LinkDirection::Target ==> ((r is Some) <==> self.linked_from_view()
                .contains_key(caller_id@)),
            direction == LinkDirection::Source ==> ((r is Some) <==> self.linked_to_view()
                .contains_key(caller_id@)),
            direction == LinkDirection::Target ==> (r matches Some(c) ==> c@
                == self.linked_from_view()[caller_id@]),
            direction == LinkDirection::Source ==> (r matches Some(c) ==> c@
                == self.linked_to_view()[caller_id@]),
    {
        let collection = match direction {
            LinkDirection::Target => &self.linked_from,
            LinkDirection::Source => &self.linked_to,
        };
        match collection.get(caller_id) {
            Some(config) => Some(config.duplicate()),
            None => None,
        }
    }

    /// Drops every link in both directions.
    pub fn clear(&mut self)
        ensures
            final(self).linked_from_view() == Map::<Seq<char>, Map<Seq<char>, Seq<char>>>::empty(),
            final(self).linked_to_view() == Map::<Seq<char>, Map<Seq<char>, Seq<char>>>::empty(),
    {
        self.linked_from.clear();
        self.linked_to.clear();
    }
}

} // verus!
