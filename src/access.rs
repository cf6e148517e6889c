//! Access tiers. A register's read direction and its write direction each sit
//! in exactly one tier: not accessible, safe, or unsafe (hardware-specific
//! requirements that the caller must uphold).
use vstd::prelude::*;

verus! {

/// Runtime form of an access tier.
#[derive(Clone, Copy, Debug, PartialEq, Eq, Structural)]
pub enum Tier {
    NoAccess,
    Safe,
    Unsafe,
}

/// Restricts `Access` to the tiers defined here.
pub trait Sealed {}

/// A type-level access tier.
pub trait Access: Sealed {
    spec fn spec_tier() -> Tier;

    fn tier() -> (t: Tier)
        ensures
            t == Self::spec_tier(),
    ;
}

/// The operation is not available. Like `Safe` and `Unsafe`, this marker
/// is never built: it is only used as a type argument.
pub struct NoAccess(());

/// The operation has no requirements beyond those the types express.
pub struct Safe(());

/// The operation has hardware-specific safety requirements.
pub struct Unsafe(());

impl Sealed for NoAccess {}

impl Sealed for Safe {}

impl Sealed for Unsafe {}

impl Access for NoAccess {
    open spec fn spec_tier() -> Tier {
        Tier::NoAccess
    }

    fn tier() -> (t: Tier) {
        Tier::NoAccess
    }
}

impl Access for Safe {
    open spec fn spec_tier() -> Tier {
        Tier::Safe
    }

    fn tier() -> (t: Tier) {
        Tier::Safe
    }
}

impl Access for Unsafe {
    open spec fn spec_tier() -> Tier {
        Tier::Unsafe
    }

    fn tier() -> (t: Tier) {
        Tier::Unsafe
    }
}

/// Tiers whose operations may be called without extra obligations.
pub trait IsSafe: Access {}

impl IsSafe for Safe {}

/// Tiers whose operations carry hardware-specific obligations.
pub trait IsUnsafe: Access {}

impl IsUnsafe for Unsafe {}

} // verus!
