//! The laws the provider obeys across several operations, each stated
//! over the step relations that the operations' own contracts establish.
//!
//! Every parameter pair `pre`/`post` below ranges over arbitrary provider
//! values related by the named step, so each law holds of every run of the
//! corresponding calls, whatever state the provider carried into them.

use vstd::prelude::*;

use crate::provider::attach_as_source_step;
use crate::provider::attach_as_target_step;
use crate::provider::detach_as_source_step;
use crate::provider::init_step;
use crate::provider::set_step;
use crate::provider::shutdown_step;
use crate::provider::KeyValueStoreProvider;
use crate::provider::LifecycleState;

verus! {

/// Round trip: after `set(k, v)` on a running provider, the store binds
/// `k` to `v`, and the provider still runs — so a following `get(k)`
/// returns exactly `v` by `get`'s own contract.
pub proof fn lemma_round_trip(
    p0: KeyValueStoreProvider,
    p1: KeyValueStoreProvider,
    k: Seq<char>,
    v: Seq<char>,
)
    requires
        p0.lifecycle() == LifecycleState::Running,
        set_step(p0, p1, k, v),
    ensures
        p1.lifecycle() == LifecycleState::Running,
        p1.store_view().contains_key(k),
        p1.store_view()[k] == v,
{
}

/// Absence: a key never set stays absent. A `set` of any other key leaves
/// it out of the store — and every other operation's step relation keeps
/// the stored data intact — so a `get` of it returns an empty result, not
/// an error, by `get`'s own contract.
pub proof fn lemma_unset_key_stays_absent(
    p0: KeyValueStoreProvider,
    p1: KeyValueStoreProvider,
    k: Seq<char>,
    other: Seq<char>,
    v: Seq<char>,
)
    requires
        k != other,
        set_step(p0, p1, other, v),
        !p0.store_view().contains_key(k),
    ensures
        !p1.store_view().contains_key(k),
{
}

/// Overwrite: `set(k, v1)` then `set(k, v2)` leaves the store binding `k`
/// to `v2` — the last write wins — and no other key moves.
pub proof fn lemma_overwrite(
    p0: KeyValueStoreProvider,
    p1: KeyValueStoreProvider,
    p2: KeyValueStoreProvider,
    k: Seq<char>,
    v1: Seq<char>,
    v2: Seq<char>,
)
    requires
        p0.lifecycle() == LifecycleState::Running,
        set_step(p0, p1, k, v1),
        set_step(p1, p2, k, v2),
    ensures
        p2.lifecycle() == LifecycleState::Running,
        p2.store_view().contains_key(k),
        p2.store_view()[k] == v2,
        forall|other: Seq<char>| other != k ==> p2.store_view().contains_key(other)
            == p0.store_view().contains_key(other),
        forall|other: Seq<char>|
            other != k && p0.store_view().contains_key(other) ==> p2.store_view()[other]
                == p0.store_view()[other],
{
}

/// Idempotent detach: two `detach_as_source(id)` calls in a row on a
/// running provider both succeed — the provider still runs after the
/// first, so the second is accepted — and the second is a no-op: it
/// changes nothing at all.
pub proof fn lemma_detach_as_source_idempotent(
    p0: KeyValueStoreProvider,
    p1: KeyValueStoreProvider,
    p2: KeyValueStoreProvider,
    id: Seq<char>,
)
    requires
        p0.lifecycle() == LifecycleState::Running,
        detach_as_source_step(p0, p1, id),
        detach_as_source_step(p1, p2, id),
    ensures
        p1.lifecycle() == LifecycleState::Running,
        p2.lifecycle() == LifecycleState::Running,
        !p1.linked_to_view().contains_key(id),
        p2.linked_to_view() == p1.linked_to_view(),
        p2.linked_from_view() == p1.linked_from_view(),
        p2.config_view() == p1.config_view(),
        p2.store_view() == p1.store_view(),
{
    assert(p0.linked_to_view().remove(id).remove(id) =~= p0.linked_to_view().remove(id));
}

/// Link isolation: registering `id` with `attach_as_target` records it
/// among the callers linked *to* this provider only; the collection of
/// callers this provider is linked to is untouched, so `id` does not
/// appear there unless it already did.
pub proof fn lemma_link_isolation(
    p0: KeyValueStoreProvider,
    p1: KeyValueStoreProvider,
    id: Seq<char>,
    config: Map<Seq<char>, Seq<char>>,
)
    requires
        p0.lifecycle() == LifecycleState::Running,
        attach_as_target_step(p0, p1, id, config),
    ensures
        p1.linked_from_view().contains_key(id),
        p1.linked_from_view()[id] == config,
        p1.linked_to_view() == p0.linked_to_view(),
        !p0.linked_to_view().contains_key(id) ==> !p1.linked_to_view().contains_key(id),
{
}

/// Reconfiguration: `init(cfg1)` then `init(cfg2)` leaves the provider
/// running under exactly `cfg2`, with no trace of `cfg1`, and with the
/// link registry and the stored data it entered with.
pub proof fn lemma_reconfiguration(
    p0: KeyValueStoreProvider,
    p1: KeyValueStoreProvider,
    p2: KeyValueStoreProvider,
    cfg1: Map<Seq<char>, Seq<char>>,
    cfg2: Map<Seq<char>, Seq<char>>,
)
    requires
        init_step(p0, p1, cfg1),
        init_step(p1, p2, cfg2),
    ensures
        p2.lifecycle() == LifecycleState::Running,
        p2.config_view() == cfg2,
        p2.linked_from_view() == p0.linked_from_view(),
        p2.linked_to_view() == p0.linked_to_view(),
        p2.store_view() == p0.store_view(),
{
}

/// Shutdown clears links and preserves data: after attaching a source
/// link and storing a value, a shutdown leaves no link in either
/// direction — a lookup of the attached identifier returns empty — while
/// the stored value and the configuration record survive, reachable again
/// once a later `init` puts the provider back in service.
pub proof fn lemma_shutdown_clears_links_preserves_data(
    p0: KeyValueStoreProvider,
    p1: KeyValueStoreProvider,
    p2: KeyValueStoreProvider,
    p3: KeyValueStoreProvider,
    id: Seq<char>,
    config: Map<Seq<char>, Seq<char>>,
    k: Seq<char>,
    v: Seq<char>,
)
    requires
        p0.lifecycle() == LifecycleState::Running,
        attach_as_source_step(p0, p1, id, config),
        set_step(p1, p2, k, v),
        shutdown_step(p2, p3),
    ensures
        p3.lifecycle() == LifecycleState::Terminated,
        !p3.linked_to_view().contains_key(id),
        !p3.linked_from_view().contains_key(id),
        p3.store_view().contains_key(k),
        p3.store_view()[k] == v,
        p3.config_view() == p0.config_view(),
{
}

/// Serialization of writes to distinct keys: two `set` calls on different
/// keys reach the same store in whichever order they are serialized, and
/// neither write is lost — each key binds its own value afterwards.
pub proof fn lemma_distinct_sets_commute(
    p0: KeyValueStoreProvider,
    p1: KeyValueStoreProvider,
    p2: KeyValueStoreProvider,
    q1: KeyValueStoreProvider,
    q2: KeyValueStoreProvider,
    k1: Seq<char>,
    v1: Seq<char>,
    k2: Seq<char>,
    v2: Seq<char>,
)
    requires
        k1 != k2,
        p0.lifecycle() == LifecycleState::Running,
        set_step(p0, p1, k1, v1),
        set_step(p1, p2, k2, v2),
        set_step(p0, q1, k2, v2),
        set_step(q1, q2, k1, v1),
    ensures
        p2.store_view() == q2.store_view(),
        p2.store_view().contains_key(k1),
        p2.store_view()[k1] == v1,
        p2.store_view().contains_key(k2),
        p2.store_view()[k2] == v2,
{
    assert(p0.store_view().insert(k1, v1).insert(k2, v2) =~= p0.store_view().insert(
        k2,
        v2,
    ).insert(k1, v1));
}

} // verus!
