//! A fee multiplier that never moves.
//!
//! The fee of a call is the base fee, plus the fee for its length, plus the
//! multiplier times the fee for its weight. The host asks after every block
//! for the next multiplier; this updater hands back the one it was given.

use frame_support::sp_runtime::FixedPointNumber;
use frame_support::sp_runtime::Perquintill;
use vstd::prelude::*;

verus! {

/// A fee multiplier: a fixed-point number given by its parts, of which
/// 10^18 make one.
pub type Multiplier = u128;

/// A share between nothing and all, in parts of 10^18.
pub type PerquintillParts = u64;

/// Calls `default` of pallet_transaction_payment's `Multiplier`, which is
/// sp_arithmetic's `FixedU128`, and `into_inner` on the result. The
/// contract claims what the source shows: the type is a tuple struct over a
/// `u128` with a derived `Default`, so its parts are 0.
#[verifier::external_body]
fn default_multiplier() -> (parts: Multiplier)
    ensures
        parts == 0,
{
    pallet_transaction_payment::Multiplier::default().into_inner()
}

/// Calls `default` of sp_arithmetic's `Perquintill` and `deconstruct` on the
/// result. The contract claims what the source shows: the default is the
/// type's zero, whose parts are 0.
#[verifier::external_body]
fn default_perquintill() -> (parts: PerquintillParts)
    ensures
        parts == 0,
{
    Perquintill::default().deconstruct()
}

/// Updater that keeps the multiplier as it is.
pub struct IdentityMultiplierUpdater {}

impl IdentityMultiplierUpdater {
    /// The multiplier of the next block: the previous one.
    pub fn convert(previous: Multiplier) -> (next: Multiplier)
        ensures
            next == previous,
    {
        previous
    }

    /// The smallest multiplier: zero.
    pub fn min() -> (multiplier: Multiplier)
        ensures
            multiplier == 0,
    {
        default_multiplier()
    }

    /// The share of a block's capacity that is aimed at: zero.
    pub fn target() -> (share: PerquintillParts)
        ensures
            share == 0,
    {
        default_perquintill()
    }

    /// How fast the multiplier may move: zero.
    pub fn variability() -> (multiplier: Multiplier)
        ensures
            multiplier == 0,
    {
        default_multiplier()
    }
}

} // verus!
