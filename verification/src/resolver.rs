//! The capability that consensus logic holds: it asks whether a slot, a round
//! or a session may be claimed and is answered with a plain verdict. The
//! resolvers of this module hold no state; they stand in for an arbiter at
//! bootstrap, in tests, and where arbitration is switched off.

use vstd::prelude::*;
use crate::store::Key;

verus! {

/// The entry points of a resolver.
pub trait PermissionResolver {
    /// The rule of the resolver: whether `granted` is a verdict that it may
    /// give when `value` is claimed on the dimension of `key`. A resolver
    /// that states no rule may give either verdict.
    open spec fn admits(&self, key: Key, value: u64, granted: bool) -> bool {
        true
    }

    /// Whether the slot may be claimed.
    fn resolve_slot(&self, slot: u64) -> (granted: bool)
        ensures
            self.admits(Key::Slot, slot, granted),
    ;

    /// Whether the round may be claimed.
    fn resolve_round(&self, round: u64) -> (granted: bool)
        ensures
            self.admits(Key::Round, round, granted),
    ;

    /// Whether the session may be claimed.
    fn resolve_session(&self, session_index: u32) -> (granted: bool)
        ensures
            self.admits(Key::Session, session_index as u64, granted),
    ;
}

/// Makes resolvers of one kind.
pub trait PermissionResolverFactory {
    /// The kind of resolver that the factory makes.
    type Resolver: PermissionResolver;

    /// Makes a resolver.
    fn create(&self) -> (resolver: Self::Resolver);
}

/// Grants every claim.
pub struct AlwaysPermissionGranted {}

impl PermissionResolver for AlwaysPermissionGranted {
    open spec fn admits(&self, key: Key, value: u64, granted: bool) -> bool {
        granted
    }

    fn resolve_slot(&self, slot: u64) -> (granted: bool)
        ensures
            granted,
    {
        true
    }

    fn resolve_round(&self, round: u64) -> (granted: bool)
        ensures
            granted,
    {
        true
    }

    fn resolve_session(&self, session_index: u32) -> (granted: bool)
        ensures
            granted,
    {
        true
    }
}

/// Makes resolvers that grant every claim.
pub struct AlwaysPermissionGrantedFactory {}

impl PermissionResolverFactory for AlwaysPermissionGrantedFactory {
    type Resolver = AlwaysPermissionGranted;

    fn create(&self) -> (resolver: AlwaysPermissionGranted)
        ensures
            resolver == (AlwaysPermissionGranted {  }),
    {
        AlwaysPermissionGranted {  }
    }
}

/// Denies every claim.
pub struct NeverPermissionGranted {}

impl PermissionResolver for NeverPermissionGranted {
    open spec fn admits(&self, key: Key, value: u64, granted: bool) -> bool {
        !granted
    }

    fn resolve_slot(&self, slot: u64) -> (granted: bool)
        ensures
            !granted,
    {
        false
    }

    fn resolve_round(&self, round: u64) -> (granted: bool)
        ensures
            !granted,
    {
        false
    }

    fn resolve_session(&self, session_index: u32) -> (granted: bool)
        ensures
            !granted,
    {
        false
    }
}

/// Makes resolvers that deny every claim.
pub struct NeverPermissionGrantedFactory {}

impl PermissionResolverFactory for NeverPermissionGrantedFactory {
    type Resolver = NeverPermissionGranted;

    fn create(&self) -> (resolver: NeverPermissionGranted)
        ensures
            resolver == (NeverPermissionGranted {  }),
    {
        NeverPermissionGranted {  }
    }
}

/// Grants a claim iff its value is even.
pub struct ParityPermissionGranted {}

impl PermissionResolver for ParityPermissionGranted {
    open spec fn admits(&self, key: Key, value: u64, granted: bool) -> bool {
        granted == (value % 2 == 0)
    }

    fn resolve_slot(&self, slot: u64) -> (granted: bool)
        ensures
            granted == (slot % 2 == 0),
    {
        slot % 2 == 0
    }

    fn resolve_round(&self, round: u64) -> (granted: bool)
        ensures
            granted == (round % 2 == 0),
    {
        round % 2 == 0
    }

    fn resolve_session(&self, session_index: u32) -> (granted: bool)
        ensures
            granted == (session_index % 2 == 0),
    {
        session_index % 2 == 0
    }
}

/// Makes resolvers that grant even values.
pub struct ParityPermissionGrantedFactory {}

impl PermissionResolverFactory for ParityPermissionGrantedFactory {
    type Resolver = ParityPermissionGranted;

    fn create(&self) -> (resolver: ParityPermissionGranted)
        ensures
            resolver == (ParityPermissionGranted {  }),
    {
        ParityPermissionGranted {  }
    }
}

} // verus!
