//! The catalog of (scheme, network) pairs that this facilitator accepts.
//!
//! A registry is filled when it is made and offers no way to change it
//! afterwards.

use crate::text::text_eq;
use vstd::prelude::*;

verus! {

/// One accepted combination of payment scheme and network.
#[derive(Debug, PartialEq, Eq)]
pub struct SupportedEntry {
    pub scheme: String,
    pub network: String,
}

/// The model of a [`SupportedEntry`].
pub struct SupportedEntryView {
    pub scheme: Seq<char>,
    pub network: Seq<char>,
}

impl View for SupportedEntry {
    type V = SupportedEntryView;

    open spec fn view(&self) -> SupportedEntryView {
        SupportedEntryView { scheme: self.scheme@, network: self.network@ }
    }
}

impl Clone for SupportedEntry {
    fn clone(&self) -> (copy: SupportedEntry)
        ensures
            copy@ == self@,
    {
        SupportedEntry { scheme: self.scheme.clone(), network: self.network.clone() }
    }
}

/// The models of a sequence of entries, in order.
pub open spec fn entry_views(entries: Seq<SupportedEntry>) -> Seq<SupportedEntryView> {
    Seq::new(entries.len(), |i: int| entries[i]@)
}

/// The accepted (scheme, network) pairs.
#[derive(Debug, PartialEq, Eq)]
pub struct SupportedRegistry {
    entries: Vec<SupportedEntry>,
}

impl View for SupportedRegistry {
    type V = Seq<SupportedEntryView>;

    closed spec fn view(&self) -> Seq<SupportedEntryView> {
        entry_views(self.entries@)
    }
}

/// Whether the pair (`scheme`, `network`) is among `entries`.
pub open spec fn supports(
    entries: Seq<SupportedEntryView>,
    scheme: Seq<char>,
    network: Seq<char>,
) -> bool {
    entries.contains(SupportedEntryView { scheme, network })
}

impl SupportedRegistry {
    /// A registry that accepts exactly `entries`.
    pub fn new(entries: Vec<SupportedEntry>) -> (registry: SupportedRegistry)
        ensures
            registry@ == entry_views(entries@),
    {
        SupportedRegistry { entries }
    }

    /// The accepted pairs, in the order in which they were given.
    pub fn list_supported(&self) -> (entries: Vec<SupportedEntry>)
        ensures
            entry_views(entries@) == self@,
    {
        let mut out: Vec<SupportedEntry> = Vec::new();
        let mut i: usize = 0;
        while i < self.entries.len()
            invariant
                0 <= i <= self.entries.len(),
                out@.len() == i,
                forall|j: int| 0 <= j < i ==> out@[j]@ == self.entries@[j]@,
            decreases self.entries.len() - i,
        {
            out.push(self.entries[i].clone());
            i += 1;
        }
        assert(entry_views(out@) =~= entry_views(self.entries@));
        out
    }

    /// Whether payments under `scheme` on `network` are accepted.
    pub fn is_supported(&self, scheme: &str, network: &str) -> (accepted: bool)
        ensures
            accepted == supports(self@, scheme@, network@),
    {
        let ghost wanted = SupportedEntryView { scheme: scheme@, network: network@ };
        let mut i: usize = 0;
        while i < self.entries.len()
            invariant
                0 <= i <= self.entries.len(),
                wanted == (SupportedEntryView { scheme: scheme@, network: network@ }),
                forall|j: int| 0 <= j < i ==> self.entries@[j]@ != wanted,
            decreases self.entries.len() - i,
        {
            let entry = &self.entries[i];
            if text_eq(entry.scheme.as_str(), scheme) && text_eq(entry.network.as_str(), network) {
                assert(self@[i as int] == wanted);
                return true;
            }
            i += 1;
        }
        assert forall|j: int| 0 <= j < self@.len() implies self@[j] != wanted by {
            assert(self@[j] == self.entries@[j]@);
        }
        false
    }
}

} // verus!
