use vstd::prelude::*;

verus! {

/// A change notification, emitted exactly once for each accepted privacy
/// write. It is the sole audit trail: no historical value is otherwise
/// retrievable.
#[derive(Clone, Copy, Debug, PartialEq, Eq, Structural)]
pub struct PrivacyEvent {
    /// The account whose setting changed.
    pub owner: u64,
    /// The value the write just stored.
    pub enabled: bool,
    /// The ledger/commit timestamp of the write.
    pub timestamp: u64,
}

} // verus!
