//! Declared cost of the operations, and who pays for a call.
//!
//! The cost of an operation is a fixed base plus the cost of the reads and
//! writes it makes in the database. It serves the fee estimate only: no
//! operation's effect depends on it.

use crate::account::{AccountId, AccountRole};
use frame_support::traits::Get;
use frame_support::weights::constants::RocksDbWeight;
use vstd::prelude::*;

verus! {

/// Cost of execution, in abstract units.
pub type Weight = u64;

/// Base cost of every privileged operation.
pub const BASE_WEIGHT: Weight = 1_000_000;

/// Declared cost of `do_something`.
pub const DO_SOMETHING_WEIGHT: Weight = 10_000_000;

/// Cost of one read in the database.
pub const DB_READ_WEIGHT: Weight = 25_000_000;

/// Cost of one write in the database.
pub const DB_WRITE_WEIGHT: Weight = 100_000_000;

/// `w` where it is a weight, the largest weight where it is beyond.
pub open spec fn capped(w: int) -> Weight {
    if w > u64::MAX {
        u64::MAX
    } else {
        w as u64
    }
}

/// Cost of `r` reads in the database.
pub open spec fn reads_weight(r: Weight) -> Weight {
    capped(DB_READ_WEIGHT * r)
}

/// Cost of `w` writes in the database.
pub open spec fn writes_weight(w: Weight) -> Weight {
    capped(DB_WRITE_WEIGHT * w)
}

/// Calls `RuntimeDbWeight::reads` of frame_support on its constant
/// `RocksDbWeight`. The contract claims what the source shows: the
/// constant's `read` is 25 * 1_000_000, and `reads` multiplies it by `r`,
/// saturating.
#[verifier::external_body]
fn db_reads(r: Weight) -> (weight: Weight)
    ensures
        weight == reads_weight(r),
{
    RocksDbWeight::get().reads(r)
}

/// Calls `RuntimeDbWeight::writes` of frame_support on its constant
/// `RocksDbWeight`. The contract claims what the source shows: the
/// constant's `write` is 100 * 1_000_000, and `writes` multiplies it by
/// `w`, saturating.
#[verifier::external_body]
fn db_writes(w: Weight) -> (weight: Weight)
    ensures
        weight == writes_weight(w),
{
    RocksDbWeight::get().writes(w)
}

/// Calls `RuntimeDbWeight::reads_writes` of frame_support on its constant
/// `RocksDbWeight`. The contract claims what the source shows: the cost of
/// `r` reads and the cost of `w` writes, each computed as above, are added,
/// saturating.
#[verifier::external_body]
fn db_reads_writes(r: Weight, w: Weight) -> (weight: Weight)
    ensures
        weight == capped(reads_weight(r) + writes_weight(w)),
{
    RocksDbWeight::get().reads_writes(r, w)
}

/// The declared cost of each privileged operation. A host that has costs
/// of its own implements it; `()` has the default costs.
pub trait WeightInfo {
    /// Declared cost of `update_something`.
    fn update_something() -> Weight;

    /// Declared cost of `account_transfer_and_lock`.
    fn account_transfer_and_lock() -> Weight;

    /// Declared cost of `account_disable`.
    fn account_disable() -> Weight;

    /// Declared cost of `account_add`.
    fn account_add() -> Weight;
}

/// The default costs: the base cost and the reads and writes that each
/// operation makes.
impl WeightInfo for () {
    /// The base cost, two reads and one write.
    fn update_something() -> (weight: Weight)
        ensures
            weight == 151_000_000,
    {
        BASE_WEIGHT.saturating_add(db_reads(2)).saturating_add(db_writes(1))
    }

    /// The base cost, one read and one write. The cost of the ledger's
    /// transfer is not in it: see `with_ledger_transfer`.
    fn account_transfer_and_lock() -> (weight: Weight)
        ensures
            weight == 126_000_000,
    {
        BASE_WEIGHT.saturating_add(db_reads(1)).saturating_add(db_writes(1))
    }

    /// The base cost, one read and one write.
    fn account_disable() -> (weight: Weight)
        ensures
            weight == 126_000_000,
    {
        BASE_WEIGHT.saturating_add(db_reads_writes(1, 1))
    }

    /// The base cost and one write.
    fn account_add() -> (weight: Weight)
        ensures
            weight == 101_000_000,
    {
        BASE_WEIGHT.saturating_add(db_writes(1))
    }
}

/// The declared cost of `account_transfer_and_lock` where the ledger
/// declares `ledger_transfer` for its transfer: the sum of the two, and
/// the largest weight where the sum is beyond it.
pub fn with_ledger_transfer(own: Weight, ledger_transfer: Weight) -> (weight: Weight)
    ensures
        weight == capped(own + ledger_transfer),
{
    own.saturating_add(ledger_transfer)
}

/// Whether the caller pays the fee of a call.
#[derive(Clone, Copy, Debug, PartialEq, Eq, Structural)]
pub enum Pays {
    /// The caller pays.
    Yes,
    /// The caller is exempt.
    No,
}

impl Pays {
    /// Who pays for an update of the stored value from `previous` to
    /// `something`: the caller is exempt exactly when there was a value and
    /// the new one is smaller.
    pub open spec fn spec_for_update(previous: Option<u32>, something: u32) -> Pays {
        if previous matches Some(p) && p > something {
            Pays::No
        } else {
            Pays::Yes
        }
    }

    /// Who pays for an update of the stored value from `previous` to
    /// `something`.
    pub fn for_update(previous: Option<u32>, something: u32) -> (pays: Pays)
        ensures
            pays == Pays::spec_for_update(previous, something),
            pays == Pays::No <==> (previous matches Some(p) && p > something),
    {
        match previous {
            Some(p) if p > something => Pays::No,
            _ => Pays::Yes,
        }
    }
}

/// Group of a call, by which the host schedules it.
#[derive(Clone, Copy, Debug, PartialEq, Eq, Structural)]
pub enum DispatchClass {
    Normal,
    Operational,
    Mandatory,
}

/// What a call declares before it runs.
#[derive(Clone, Copy, Debug, PartialEq, Eq, Structural)]
pub struct DispatchInfo {
    /// Declared cost.
    pub weight: Weight,
    /// Group of the call.
    pub class: DispatchClass,
    /// Whether the caller pays the fee.
    pub pays_fee: Pays,
}

/// What a call reports once it has run.
#[derive(Clone, Copy, Debug, PartialEq, Eq, Structural)]
pub struct PostDispatchInfo {
    /// The cost it really had; `None` stands for the declared cost.
    pub actual_weight: Option<Weight>,
    /// Whether the caller pays the fee after all.
    pub pays_fee: Pays,
}

/// The operations by name, each with its parameters. The caller is not
/// among them.
#[allow(non_camel_case_types)]
#[derive(Clone, Copy, Debug, PartialEq, Eq, Structural)]
pub enum Call {
    /// Target identity and role.
    account_add(AccountId, AccountRole),
    /// Target identity.
    account_disable(AccountId),
    /// Target identity and amount.
    account_transfer_and_lock(AccountId, u128),
    /// Value to store.
    do_something(u32),
    /// Value to store.
    update_something(u32),
}

impl Call {
    /// Whether `weight` is a cost that `W` may declare for the call. The
    /// cost of `do_something` is fixed; that of every other operation is
    /// what the method of `W` for it returns.
    pub open spec fn declares<W: WeightInfo>(self, weight: Weight) -> bool {
        match self {
            Call::account_add(_, _) => call_ensures(W::account_add, (), weight),
            Call::account_disable(_) => call_ensures(W::account_disable, (), weight),
            Call::account_transfer_and_lock(_, _) => call_ensures(
                W::account_transfer_and_lock,
                (),
                weight,
            ),
            Call::do_something(_) => weight == DO_SOMETHING_WEIGHT,
            Call::update_something(_) => call_ensures(W::update_something, (), weight),
        }
    }

    /// Whether the caller is to pay for the call, as declared before it
    /// runs: `do_something` is free, every other operation is paid for.
    pub open spec fn declared_pays(self) -> Pays {
        match self {
            Call::do_something(_) => Pays::No,
            _ => Pays::Yes,
        }
    }

    /// What a call of cost `weight` declares before it runs: that cost, the
    /// normal class, and who pays.
    pub open spec fn spec_dispatch_info(self, weight: Weight) -> DispatchInfo {
        DispatchInfo { weight, class: DispatchClass::Normal, pays_fee: self.declared_pays() }
    }

    /// What a call of cost `weight` declares before it runs.
    pub fn dispatch_info(&self, weight: Weight) -> (info: DispatchInfo)
        ensures
            info == self.spec_dispatch_info(weight),
    {
        let pays_fee = match self {
            Call::do_something(_) => Pays::No,
            _ => Pays::Yes,
        };
        DispatchInfo { weight, class: DispatchClass::Normal, pays_fee }
    }

    /// What the call declares before it runs, under the costs `W`.
    pub fn get_dispatch_info<W: WeightInfo>(&self) -> (info: DispatchInfo)
        ensures
            self.declares::<W>(info.weight),
            info == self.spec_dispatch_info(info.weight),
    {
        let weight = match self {
            Call::account_add(_, _) => W::account_add(),
            Call::account_disable(_) => W::account_disable(),
            Call::account_transfer_and_lock(_, _) => W::account_transfer_and_lock(),
            Call::do_something(_) => DO_SOMETHING_WEIGHT,
            Call::update_something(_) => W::update_something(),
        };
        self.dispatch_info(weight)
    }
}

} // verus!
