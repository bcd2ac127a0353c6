use vstd::prelude::*;

use crate::errors::PrivacyError;
use crate::events::PrivacyEvent;
use crate::registry::{effective_of, set_privacy_step, RegistryView};

verus! {

/// An owner with no prior write reads as `false`: absence always resolves
/// to the disabled state.
pub proof fn lemma_unset_owner_reads_false(s: RegistryView, owner: u64)
    requires
        !s.settings.dom().contains(owner),
    ensures
        !effective_of(s.settings, owner),
{
}

/// After a successful `set_privacy(owner, enabled)`, the owner's effective
/// value is `enabled`.
pub proof fn lemma_get_after_set(
    s: RegistryView,
    owner: u64,
    enabled: bool,
    authorized: bool,
    timestamp: u64,
)
    requires
        set_privacy_step(s, owner, enabled, authorized, timestamp).1 is Ok,
    ensures
        effective_of(
            set_privacy_step(s, owner, enabled, authorized, timestamp).0.settings,
            owner,
        ) == enabled,
{
}

/// The second of two consecutive authorized `set_privacy` calls with the
/// same value fails with `PrivacyAlreadySet` and leaves the state exactly
/// as the first call left it, whether or not the first call was accepted.
pub proof fn lemma_repeated_set_rejected(
    s: RegistryView,
    owner: u64,
    enabled: bool,
    t1: u64,
    t2: u64,
)
    ensures
        ({
            let s1 = set_privacy_step(s, owner, enabled, true, t1).0;
            let step2 = set_privacy_step(s1, owner, enabled, true, t2);
            step2.1 == Err::<(), PrivacyError>(PrivacyError::PrivacyAlreadySet) && step2.0 == s1
        }),
{
}

/// Toggling: for an owner whose effective value is `false`, an authorized
/// enable followed by an authorized disable both succeed and leave the
/// effective value `false` again.
pub proof fn lemma_toggle_round_trip(s: RegistryView, owner: u64, t1: u64, t2: u64)
    requires
        !effective_of(s.settings, owner),
    ensures
        ({
            let step1 = set_privacy_step(s, owner, true, true, t1);
            let step2 = set_privacy_step(step1.0, owner, false, true, t2);
            step1.1 is Ok && step2.1 is Ok && !effective_of(step2.0.settings, owner)
        }),
{
}

/// An unauthorized call fails with `AuthorizationFailed` and changes
/// nothing, whatever is currently stored for the owner.
pub proof fn lemma_unauthorized_rejected(
    s: RegistryView,
    owner: u64,
    enabled: bool,
    timestamp: u64,
)
    ensures
        set_privacy_step(s, owner, enabled, false, timestamp).0 == s,
        set_privacy_step(s, owner, enabled, false, timestamp).1 == Err::<(), PrivacyError>(
            PrivacyError::AuthorizationFailed,
        ),
{
}

/// Event coupling: a call appends the event `(owner, enabled, timestamp)`
/// if and only if it succeeds; a refused call leaves the log untouched, and
/// on success the event's value equals the value just stored.
pub proof fn lemma_event_iff_success(
    s: RegistryView,
    owner: u64,
    enabled: bool,
    authorized: bool,
    timestamp: u64,
)
    ensures
        ({
            let step = set_privacy_step(s, owner, enabled, authorized, timestamp);
            &&& step.1 is Ok <==> step.0.log == s.log.push(
                PrivacyEvent { owner, enabled, timestamp },
            )
            &&& step.1 is Err ==> step.0.log == s.log
            &&& step.1 is Ok ==> effective_of(step.0.settings, owner) == enabled
        }),
{
    assert(s.log.push(PrivacyEvent { owner, enabled, timestamp }).len() == s.log.len() + 1);
}

} // verus!
