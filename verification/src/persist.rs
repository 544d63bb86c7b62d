//! Persistent state: one display label, saved at shutdown and restored at
//! startup. A stored snapshot may predate the field, so restoration falls
//! back to the field's default (the empty string) when it is missing.

use vstd::prelude::*;

verus! {

/// The state that survives a restart: a single display label.
pub struct PersistentState {
    pub label: String,
}

impl Default for PersistentState {
    /// The schema default: an empty label.
    fn default() -> (r: Self)
        ensures
            r.label@ == Seq::<char>::empty(),
    {
        PersistentState { label: String::new() }
    }
}

/// What restoring a snapshot yields for the label field: the stored value
/// when the field is present, the schema default when it is missing.
pub open spec fn restored_label(stored: Option<String>) -> Seq<char> {
    match stored {
        Some(l) => l@,
        None => Seq::<char>::empty(),
    }
}

impl PersistentState {
    /// Rebuild the persistent state from a snapshot in which the label
    /// field may be missing; a missing field defaults rather than failing.
    pub fn from_snapshot(stored: Option<String>) -> (r: Self)
        ensures
            r.label@ == restored_label(stored),
    {
        match stored {
            Some(l) => PersistentState { label: l },
            None => PersistentState { label: String::new() },
        }
    }

    /// The snapshot written at shutdown: the label as stored.
    pub fn to_snapshot(&self) -> (r: Option<String>)
        ensures
            r matches Some(l) && l@ == self.label@,
    {
        Some(self.label.clone())
    }
}

/// A label written at shutdown is read back unchanged at the next startup,
/// and a snapshot from before the field existed restores to the default.
pub proof fn lemma_label_round_trip(s: PersistentState, written: Option<String>)
    requires
        written matches Some(l) && l@ == s.label@,
    ensures
        restored_label(written) == s.label@,
        restored_label(None) == Seq::<char>::empty(),
{
}

} // verus!
