use vstd::prelude::*;

use crate::errors::PrivacyError;

verus! {

/// The effective privacy value of a storage slot: the stored boolean, or
/// `false` when nothing has ever been stored for the owner.
pub open spec fn effective_value_of(stored: Option<bool>) -> bool {
    match stored {
        Some(b) => b,
        None => false,
    }
}

/// What a privacy update decides, given the slot contents, the requested
/// value and the authorization verdict for the owner: an unauthorized caller
/// is refused before anything else, a write that would not change the
/// effective value is refused as a strict no-op, and only the remaining
/// calls may write and emit.
pub open spec fn set_privacy_decision(
    stored: Option<bool>,
    enabled: bool,
    authorized: bool,
) -> Result<(), PrivacyError> {
    if !authorized {
        Err(PrivacyError::AuthorizationFailed)
    } else if effective_value_of(stored) == enabled {
        Err(PrivacyError::PrivacyAlreadySet)
    } else {
        Ok(())
    }
}

/// Reads a slot with default substitution: the stored boolean, or `false`
/// when the slot is empty. Total; never fails.
pub fn effective_value(stored: Option<bool>) -> (b: bool)
    ensures
        b == effective_value_of(stored),
{
    match stored {
        Some(b) => b,
        None => false,
    }
}

/// The authorization and idempotency gate of a privacy update. Returns
/// `Ok(())` exactly when the caller is authorized and the requested value
/// differs from the effective current value; only then may the caller
/// persist the value and emit the change event.
pub fn decide_set_privacy(stored: Option<bool>, enabled: bool, authorized: bool) -> (r: Result<
    (),
    PrivacyError,
>)
    ensures
        r == set_privacy_decision(stored, enabled, authorized),
{
    if !authorized {
        Err(PrivacyError::AuthorizationFailed)
    } else if effective_value(stored) == enabled {
        Err(PrivacyError::PrivacyAlreadySet)
    } else {
        Ok(())
    }
}

} // verus!
