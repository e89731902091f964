//! The provider itself: the lifecycle state machine that drives the
//! configuration holder, the link registry and the key-value store, and
//! the `get`/`set` invocation handler for attached callers.

use vstd::prelude::*;

use crate::config::ConfigHolder;
use crate::config::ConfigMap;
use crate::registry::LinkDirection;
use crate::registry::LinkRegistry;
use crate::store::KvStore;

verus! {

/// Where the provider stands in its lifecycle. `Running` is re-entrant
/// with respect to link attach/detach: those are events handled while
/// `Running`, not separate states. The transient clearing phase of a
/// shutdown is not observable here, since a shutdown call moves the
/// provider to `Terminated` in one step.
#[derive(Clone, Copy, Debug, PartialEq, Eq, Structural)]
pub enum LifecycleState {
    Uninitialized,
    Running,
    Terminated,
}

/// Why an operation was refused: the provider is not yet initialized, or
/// it has been shut down. Both are reported to the immediate caller only;
/// they never affect another caller's in-flight operations.
#[derive(Clone, Copy, Debug, PartialEq, Eq, Structural)]
pub enum ProviderError {
    NotReady,
    ShutDown,
}

/// The provider: exclusive owner of its configuration record, its link
/// registry and its key-value store for its whole lifetime. All three are
/// created empty, mutated only through the operations below, and cleared
/// (never destroyed) as each operation's contract states.
///
/// A host drives the lifecycle (`init`, attach/detach events, `shutdown`)
/// and consults `lookup`; attached callers issue `get` and `set`. The
/// state-appropriate behaviour is enforced here: `get`, `set` and the
/// attach/detach events are accepted while `Running` only, and fail with
/// `NotReady` before `init` and with `ShutDown` after `shutdown` rather
/// than silently succeeding.
pub struct KeyValueStoreProvider {
    state: LifecycleState,
    config: ConfigHolder,
    links: LinkRegistry,
    store: KvStore,
}

impl KeyValueStoreProvider {
    /// The lifecycle state the provider is in.
    pub closed spec fn lifecycle(&self) -> LifecycleState {
        self.state
    }

    /// The current configuration record.
    pub closed spec fn config_view(&self) -> Map<Seq<char>, Seq<char>> {
        self.config@
    }

    /// The callers linked to this provider (it is the link target).
    pub closed spec fn linked_from_view(&self) -> Map<Seq<char>, Map<Seq<char>, Seq<char>>> {
        self.links.linked_from_view()
    }

    /// The callers this provider is linked to (it is the link source).
    pub closed spec fn linked_to_view(&self) -> Map<Seq<char>, Map<Seq<char>, Seq<char>>> {
        self.links.linked_to_view()
    }

    /// The key-value data the store holds.
    pub closed spec fn store_view(&self) -> Map<Seq<char>, Seq<char>> {
        self.store@
    }
}

/// What a successful `init` does: the provider runs under exactly the new
/// configuration, and neither the link registry nor the stored data is
/// affected.
pub open spec fn init_step(
    pre: KeyValueStoreProvider,
    post: KeyValueStoreProvider,
    config: Map<Seq<char>, Seq<char>>,
) -> bool {
    &&& post.lifecycle() == LifecycleState::Running
    &&& post.config_view() == config
    &&& post.linked_from_view() == pre.linked_from_view()
    &&& post.linked_to_view() == pre.linked_to_view()
    &&& post.store_view() == pre.store_view()
}

/// What a successful `attach_as_source` does: the target is recorded (or
/// overwritten) among the callers this provider invokes, and nothing else
/// moves.
pub open spec fn attach_as_source_step(
    pre: KeyValueStoreProvider,
    post: KeyValueStoreProvider,
    target_id: Seq<char>,
    config: Map<Seq<char>, Seq<char>>,
) -> bool {
    &&& post.lifecycle() == pre.lifecycle()
    &&& post.config_view() == pre.config_view()
    &&& post.linked_from_view() == pre.linked_from_view()
    &&& post.linked_to_view() == pre.linked_to_view().insert(target_id, config)
    &&& post.store_view() == pre.store_view()
}

/// What a successful `attach_as_target` does: the source is recorded (or
/// overwritten) among the callers that invoke this provider, and nothing
/// else moves.
pub open spec fn attach_as_target_step(
    pre: KeyValueStoreProvider,
    post: KeyValueStoreProvider,
    source_id: Seq<char>,
    config: Map<Seq<char>, Seq<char>>,
) -> bool {
    &&& post.lifecycle() == pre.lifecycle()
    &&& post.config_view() == pre.config_view()
    &&& post.linked_from_view() == pre.linked_from_view().insert(source_id, config)
    &&& post.linked_to_view() == pre.linked_to_view()
    &&& post.store_view() == pre.store_view()
}

/// What a successful `detach_as_source` does: the target no longer appears
/// among the callers this provider invokes — whether or not it did before —
/// and nothing else moves.
pub open spec fn detach_as_source_step(
    pre: KeyValueStoreProvider,
    post: KeyValueStoreProvider,
    target_id: Seq<char>,
) -> bool {
    &&& post.lifecycle() == pre.lifecycle()
    &&& post.config_view() == pre.config_view()
    &&& post.linked_from_view() == pre.linked_from_view()
    &&& post.linked_to_view() == pre.linked_to_view().remove(target_id)
    &&& post.store_view() == pre.store_view()
}

/// What a successful `detach_as_target` does: the source no longer appears
/// among the callers that invoke this provider, and nothing else moves.
pub open spec fn detach_as_target_step(
    pre: KeyValueStoreProvider,
    post: KeyValueStoreProvider,
    source_id: Seq<char>,
) -> bool {
    &&& post.lifecycle() == pre.lifecycle()
    &&& post.config_view() == pre.config_view()
    &&& post.linked_from_view() == pre.linked_from_view().remove(source_id)
    &&& post.linked_to_view() == pre.linked_to_view()
    &&& post.store_view() == pre.store_view()
}

/// What `shutdown` does: both link collections are cleared, while the
/// configuration record and the stored data are preserved.
pub open spec fn shutdown_step(
    pre: KeyValueStoreProvider,
    post: KeyValueStoreProvider,
) -> bool {
    &&& post.lifecycle() == LifecycleState::Terminated
    &&& post.config_view() == pre.config_view()
    &&& post.linked_from_view() == Map::<Seq<char>, Map<Seq<char>, Seq<char>>>::empty()
    &&& post.linked_to_view() == Map::<Seq<char>, Map<Seq<char>, Seq<char>>>::empty()
    &&& post.store_view() == pre.store_view()
}

/// What a successful `set` does: the store maps the key to the new value,
/// every other key keeps its binding, and nothing else moves.
pub open spec fn set_step(
    pre: KeyValueStoreProvider,
    post: KeyValueStoreProvider,
    key: Seq<char>,
    value: Seq<char>,
) -> bool {
    &&& post.lifecycle() == pre.lifecycle()
    &&& post.config_view() == pre.config_view()
    &&& post.linked_from_view() == pre.linked_from_view()
    &&& post.linked_to_view() == pre.linked_to_view()
    &&& post.store_view() == pre.store_view().insert(key, value)
}

impl KeyValueStoreProvider {
    /// A fresh provider: uninitialized, with an empty configuration, no
    /// links in either direction, and an empty store.
    pub fn new() -> (p: Self)
        ensures
            p.lifecycle() == LifecycleState::Uninitialized,
            p.config_view() == Map::<Seq<char>, Seq<char>>::empty(),
            p.linked_from_view() == Map::<Seq<char>, Map<Seq<char>, Seq<char>>>::empty(),
            p.linked_to_view() == Map::<Seq<char>, Map<Seq<char>, Seq<char>>>::empty(),
            p.store_view() == Map::<Seq<char>, Seq<char>>::empty(),
    {
        KeyValueStoreProvider {
            state: LifecycleState::Uninitialized,
            config: ConfigHolder::new(),
            links: LinkRegistry::new(),
            store: KvStore::new(),
        }
    }

    /// The lifecycle state the provider is in.
    pub fn state(&self) -> (s: LifecycleState)
        ensures
            s == self.lifecycle(),
    {
        self.state
    }

    /// Initializes — or, called again, reconfigures — the provider: the
    /// configuration record is replaced wholesale and the provider runs.
    /// The configuration is an opaque map with no validity constraint, so
    /// initialization never fails; a malformed-configuration error would
    /// be reported here if one existed. Called after a shutdown, it puts
    /// the provider back in service with its stored data intact.
    ///
    /// The provider identifier is the host's name for this provider; it
    /// plays no part in the state.
    pub fn init(&mut self, _provider_id: &str, config: ConfigMap) -> (r: Result<
        (),
        ProviderError,
    >)
        ensures
            r is Ok,
            init_step(*old(self), *final(self), config@),
    {
        self.config.apply(config);
        self.state = LifecycleState::Running;
        Ok(())
    }

    /// Records a link from this provider to the component `target_id`,
    /// with the configuration supplied for it. Accepted while `Running`
    /// only; the registry and every other structure are untouched by a
    /// refused call.
    pub fn attach_as_source(&mut self, target_id: String, config: ConfigMap) -> (r: Result<
        (),
        ProviderError,
    >)
        ensures
            (r is Ok) <==> old(self).lifecycle() == LifecycleState::Running,
            old(self).lifecycle() == LifecycleState::Uninitialized ==> r == Err::<
                (),
                ProviderError,
            >(ProviderError::NotReady),
            old(self).lifecycle() == LifecycleState::Terminated ==> r == Err::<
                (),
                ProviderError,
            >(ProviderError::ShutDown),
            old(self).lifecycle() == LifecycleState::Running ==> attach_as_source_step(
                *old(self),
                *final(self),
                target_id@,
                config@,
            ),
            old(self).lifecycle() != LifecycleState::Running ==> *final(self) == *old(self),
    {
        match self.state {
            LifecycleState::Uninitialized => Err(ProviderError::NotReady),
            LifecycleState::Terminated => Err(ProviderError::ShutDown),
            LifecycleState::Running => {
                self.links.register_as_source(target_id, config);
                Ok(())
            },
        }
    }

    /// Records a link from the component `source_id` to this provider,
    /// with the configuration supplied for it. Accepted while `Running`
    /// only; the registry and every other structure are untouched by a
    /// refused call.
    pub fn attach_as_target(&mut self, source_id: String, config: ConfigMap) -> (r: Result<
        (),
        ProviderError,
    >)
        ensures
            (r is Ok) <==> old(self).lifecycle() == LifecycleState::Running,
            old(self).lifecycle() == LifecycleState::Uninitialized ==> r == Err::<
                (),
                ProviderError,
            >(ProviderError::NotReady),
            old(self).lifecycle() == LifecycleState::Terminated ==> r == Err::<
                (),
                ProviderError,
            >(ProviderError::ShutDown),
            old(self).lifecycle() == LifecycleState::Running ==> attach_as_target_step(
                *old(self),
                *final(self),
                source_id@,
                config@,
            ),
            old(self).lifecycle() != LifecycleState::Running ==> *final(self) == *old(self),
    {
        match self.state {
            LifecycleState::Uninitialized => Err(ProviderError::NotReady),
            LifecycleState::Terminated => Err(ProviderError::ShutDown),
            LifecycleState::Running => {
                self.links.register_as_target(source_id, config);
                Ok(())
            },
        }
    }

    /// Deletes the link from this provider to the component `target_id`.
    /// Detaching an identifier that is not linked is a success and a
    /// no-op, never an error. Accepted while `Running` only.
    pub fn detach_as_source(&mut self, target_id: &str) -> (r: Result<(), ProviderError>)
        ensures
            (r is Ok) <==> old(self).lifecycle() == LifecycleState::Running,
            old(self).lifecycle() == LifecycleState::Uninitialized ==> r == Err::<
                (),
                ProviderError,
            >(ProviderError::NotReady),
            old(self).lifecycle() == LifecycleState::Terminated ==> r == Err::<
                (),
                ProviderError,
            >(ProviderError::ShutDown),
            old(self).lifecycle() == LifecycleState::Running ==> detach_as_source_step(
                *old(self),
                *final(self),
                target_id@,
            ),
            old(self).lifecycle() != LifecycleState::Running ==> *final(self) == *old(self),
    {
        match self.state {
            LifecycleState::Uninitialized => Err(ProviderError::NotReady),
            LifecycleState::Terminated => Err(ProviderError::ShutDown),
            LifecycleState::Running => {
                self.links.unregister_as_source(target_id);
                Ok(())
            },
        }
    }

    /// Deletes the link from the component `source_id` to this provider.
    /// Detaching an identifier that is not linked is a success and a
    /// no-op, never an error. Accepted while `Running` only.
    pub fn detach_as_target(&mut self, source_id: &str) -> (r: Result<(), ProviderError>)
        ensures
            (r is Ok) <==> old(self).lifecycle() == LifecycleState::Running,
            old(self).lifecycle() == LifecycleState::Uninitialized ==> r == Err::<
                (),
                ProviderError,
            >(ProviderError::NotReady),
            old(self).lifecycle() == LifecycleState::Terminated ==> r == Err::<
                (),
                ProviderError,
            >(ProviderError::ShutDown),
            old(self).lifecycle() == LifecycleState::Running ==> detach_as_target_step(
                *old(self),
                *final(self),
                source_id@,
            ),
            old(self).lifecycle() != LifecycleState::Running ==> *final(self) == *old(self),
    {
        match self.state {
            LifecycleState::Uninitialized => Err(ProviderError::NotReady),
            LifecycleState::Terminated => Err(ProviderError::ShutDown),
            LifecycleState::Running => {
                self.links.unregister_as_target(source_id);
                Ok(())
            },
        }
    }

    /// Shuts the provider down: both link collections are cleared; the
    /// configuration record and the stored data are deliberately
    /// preserved, so a later `init` puts the provider back in service over
    /// the same data. Idempotent: shutting down a provider that is already
    /// `Terminated` — or was never initialized — is a no-op success.
    pub fn shutdown(&mut self) -> (r: Result<(), ProviderError>)
        ensures
            r is Ok,
            shutdown_step(*old(self), *final(self)),
    {
        self.links.clear();
        self.state = LifecycleState::Terminated;
        Ok(())
    }

    /// The current value stored under `key`, or an empty result — not an
    /// error — if the key was never set. Accepted while `Running` only;
    /// never mutates anything.
    pub fn get(&self, key: &str) -> (r: Result<Option<String>, ProviderError>)
        ensures
            (r is Ok) <==> self.lifecycle() == LifecycleState::Running,
            self.lifecycle() == LifecycleState::Uninitialized ==> r == Err::<
                Option<String>,
                ProviderError,
            >(ProviderError::NotReady),
            self.lifecycle() == LifecycleState::Terminated ==> r == Err::<
                Option<String>,
                ProviderError,
            >(ProviderError::ShutDown),
            r matches Ok(v) ==> ((v is Some) <==> self.store_view().contains_key(key@)),
            r matches Ok(Some(value)) ==> value@ == self.store_view()[key@],
    {
        match self.state {
            LifecycleState::Uninitialized => Err(ProviderError::NotReady),
            LifecycleState::Terminated => Err(ProviderError::ShutDown),
            LifecycleState::Running => {
                match self.store.get(key) {
                    Ok(value) => Ok(value),
                    // The in-memory store reports no failures.
                    Err(_) => Err(ProviderError::ShutDown),
                }
            },
        }
    }

    /// Inserts or overwrites the entry for `key`: every later `get` of the
    /// key, by any caller, observes the new value, and no other key moves.
    /// Accepted while `Running` only; a refused call leaves the provider
    /// untouched.
    pub fn set(&mut self, key: String, value: String) -> (r: Result<(), ProviderError>)
        ensures
            (r is Ok) <==> old(self).lifecycle() == LifecycleState::Running,
            old(self).lifecycle() == LifecycleState::Uninitialized ==> r == Err::<
                (),
                ProviderError,
            >(ProviderError::NotReady),
            old(self).lifecycle() == LifecycleState::Terminated ==> r == Err::<
                (),
                ProviderError,
            >(ProviderError::ShutDown),
            old(self).lifecycle() == LifecycleState::Running ==> set_step(
                *old(self),
                *final(self),
                key@,
                value@,
            ),
            old(self).lifecycle() != LifecycleState::Running ==> *final(self) == *old(self),
    {
        match self.state {
            LifecycleState::Uninitialized => Err(ProviderError::NotReady),
            LifecycleState::Terminated => Err(ProviderError::ShutDown),
            LifecycleState::Running => {
                match self.store.set(key, value) {
                    Ok(()) => Ok(()),
                    // The in-memory store reports no failures.
                    Err(_) => Err(ProviderError::ShutDown),
                }
            },
        }
    }

    /// The configuration recorded for `caller_id` in the link collection
    /// the direction names, cloned; read-only host bookkeeping, answered
    /// in every lifecycle state.
    pub fn lookup(&self, caller_id: &str, direction: LinkDirection) -> (r: Option<ConfigMap>)
        ensures
            direction == LinkDirection::Target ==> ((r is Some) <==> self.linked_from_view()
                .contains_key(caller_id@)),
            direction == LinkDirection::Source ==> ((r is Some) <==> self.linked_to_view()
                .contains_key(caller_id@)),
            direction == LinkDirection::Target ==> (r matches Some(c) ==> c@
                == self.linked_from_view()[caller_id@]),
            direction == LinkDirection::Source ==> (r matches Some(c) ==> c@
                == self.linked_to_view()[caller_id@]),
    {
        self.links.lookup(caller_id, direction)
    }

    /// The presently held configuration record, cloned; read-only,
    /// answered in every lifecycle state.
    pub fn current(&self) -> (r: ConfigMap)
        ensures
            r@ == self.config_view(),
    {
        self.config.current()
    }
}

impl Default for KeyValueStoreProvider {
    /// The same fresh provider `new` returns.
    fn default() -> (p: Self)
        ensures
            p.lifecycle() == LifecycleState::Uninitialized,
            p.config_view() == Map::<Seq<char>, Seq<char>>::empty(),
            p.linked_from_view() == Map::<Seq<char>, Map<Seq<char>, Seq<char>>>::empty(),
            p.linked_to_view() == Map::<Seq<char>, Map<Seq<char>, Seq<char>>>::empty(),
            p.store_view() == Map::<Seq<char>, Seq<char>>::empty(),
    {
        KeyValueStoreProvider::new()
    }
}

} // verus!
