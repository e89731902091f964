//! The provider's configuration: an opaque key/value mapping, replaced
//! wholesale on each (re)initialization.

use vstd::prelude::*;

use crate::assoc::AssocMap;

verus! {

/// An opaque mapping from configuration key to configuration value, as
/// handed to `init` and as carried by each link.
pub type ConfigMap = AssocMap<String>;

/// Holds the single current configuration record. There are no partial
/// updates and no merge semantics: `apply` replaces the record wholesale,
/// and readers see either the old or the new record in full, never a mix.
pub struct ConfigHolder {
    held: ConfigMap,
}

impl View for ConfigHolder {
    type V = Map<Seq<char>, Seq<char>>;

    closed spec fn view(&self) -> Map<Seq<char>, Seq<char>> {
        self.held@
    }
}

impl ConfigHolder {
    /// A holder with an empty configuration.
    pub fn new() -> (h: Self)
        ensures
            h@ == Map::<Seq<char>, Seq<char>>::empty(),
    {
        ConfigHolder { held: AssocMap::new() }
    }

    /// Replaces the held configuration with `new_config`, leaving no trace
    /// of the previous record.
    pub fn apply(&mut self, new_config: ConfigMap)
        ensures
            final(self)@ == new_config@,
    {
        self.held = new_config;
    }

    /// The presently held configuration, cloned: the caller cannot observe
    /// a later replacement through it.
    pub fn current(&self) -> (r: ConfigMap)
        ensures
            r@ == self@,
    {
        self.held.duplicate()
    }
}

} // verus!
