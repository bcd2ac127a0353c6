use vstd::prelude::*;

use std::collections::HashMap;

use crate::errors::PrivacyError;
use crate::events::PrivacyEvent;
use crate::privacy::{decide_set_privacy, effective_value_of, set_privacy_decision};

verus! {

broadcast use vstd::std_specs::hash::group_hash_axioms;

/// The registry as contracts see it: the stored settings (absence of an
/// owner means no value was ever written) and the events emitted so far,
/// oldest first.
pub struct RegistryView {
    pub settings: Map<u64, bool>,
    pub log: Seq<PrivacyEvent>,
}

/// The slot contents for an owner: the stored boolean, or `None` when no
/// value was ever written.
pub open spec fn stored_of(settings: Map<u64, bool>, owner: u64) -> Option<bool> {
    if settings.dom().contains(owner) {
        Some(settings[owner])
    } else {
        None
    }
}

/// The effective privacy value for an owner: the stored boolean, with
/// absence resolving to `false`.
pub open spec fn effective_of(settings: Map<u64, bool>, owner: u64) -> bool {
    effective_value_of(stored_of(settings, owner))
}

/// One step of `set_privacy` on the registry state: the state after the
/// call and the call's result. A refused call leaves the state untouched;
/// an accepted call overwrites the owner's slot and appends exactly one
/// event carrying the owner, the new value and the commit timestamp.
pub open spec fn set_privacy_step(
    s: RegistryView,
    owner: u64,
    enabled: bool,
    authorized: bool,
    timestamp: u64,
) -> (RegistryView, Result<(), PrivacyError>) {
    match set_privacy_decision(stored_of(s.settings, owner), enabled, authorized) {
        Err(e) => (s, Err(e)),
        Ok(u) => (
            RegistryView {
                settings: s.settings.insert(owner, enabled),
                log: s.log.push(PrivacyEvent { owner, enabled, timestamp }),
            },
            Ok(u),
        ),
    }
}

/// An in-memory privacy registry: one boolean slot per owner, plus the
/// captured list of change events. It plays the part of the persistent
/// key-value store and of the event sink, so that every decision of the
/// manager is checked against `set_privacy_step`.
pub struct PrivacyRegistry {
    settings: HashMap<u64, bool>,
    log: Vec<PrivacyEvent>,
}

impl View for PrivacyRegistry {
    type V = RegistryView;

    closed spec fn view(&self) -> RegistryView {
        RegistryView { settings: self.settings@, log: self.log@ }
    }
}

impl PrivacyRegistry {
    /// A registry in which no owner has ever written: every read resolves
    /// to `false` and no event has been emitted.
    pub fn new() -> (r: Self)
        ensures
            r@.settings == Map::<u64, bool>::empty(),
            r@.log == Seq::<PrivacyEvent>::empty(),
    {
        PrivacyRegistry { settings: HashMap::new(), log: Vec::new() }
    }

    /// Reads the effective privacy value for `owner`: the stored boolean,
    /// or `false` when no value has ever been stored. Total, read-only and
    /// open to any caller; no authorization is required.
    pub fn get_privacy(&self, owner: u64) -> (b: bool)
        ensures
            b == effective_of(self@.settings, owner),
    {
        match self.settings.get(&owner) {
            Some(v) => *v,
            None => false,
        }
    }

    /// Applies an authorized privacy update: refuses an unauthorized caller
    /// with `AuthorizationFailed` before anything else, refuses a write that
    /// would not change the effective value with `PrivacyAlreadySet`, and
    /// otherwise stores `enabled` and appends the change event stamped with
    /// `timestamp`. State changes exactly on `Ok`.
    ///
    /// `authorized` is the verdict of the authorization collaborator for
    /// (caller, owner); `timestamp` is the commit time of the hosting
    /// ledger's clock.
    pub fn set_privacy(
        &mut self,
        owner: u64,
        enabled: bool,
        authorized: bool,
        timestamp: u64,
    ) -> (r: Result<(), PrivacyError>)
        ensures
            final(self)@ == set_privacy_step(old(self)@, owner, enabled, authorized, timestamp).0,
            r == set_privacy_step(old(self)@, owner, enabled, authorized, timestamp).1,
    {
        let stored: Option<bool> = match self.settings.get(&owner) {
            Some(v) => Some(*v),
            None => None,
        };
        match decide_set_privacy(stored, enabled, authorized) {
            Err(e) => Err(e),
            Ok(u) => {
                self.settings.insert(owner, enabled);
                self.log.push(PrivacyEvent { owner, enabled, timestamp });
                Ok(u)
            },
        }
    }

    /// The events emitted so far, oldest first: one per accepted write.
    pub fn events(&self) -> (r: &Vec<PrivacyEvent>)
        ensures
            r@ == self@.log,
    {
        &self.log
    }
}

} // verus!
