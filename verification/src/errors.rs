use vstd::prelude::*;

verus! {

/// Why a privacy update was refused. Both errors are terminal: the call
/// leaves the stored settings and the event log untouched.
#[derive(Clone, Copy, Debug, PartialEq, Eq, Structural)]
pub enum PrivacyError {
    /// The caller is not the verified controller of the owner account.
    AuthorizationFailed,
    /// The requested value equals the owner's current effective value.
    PrivacyAlreadySet,
}

} // verus!
