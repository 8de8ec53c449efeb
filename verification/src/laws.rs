//! What holds of the operations in every state.
//!
//! Each function here is a theorem over the mathematical state of the
//! module and the outcome of its operations, as their contracts state them.

use crate::account::{Account, AccountId, AccountRole, Moment};
use crate::lock::{
    ExistenceRequirement, LedgerCall, LedgerReply, Step, TransferAndLock,
    ALL_BUT_TRANSACTION_PAYMENT, FEE_LOCK_ID, TRANSACTION_PAYMENT,
};
use crate::pallet::{Balance, Error, Event, ModuleState};
use crate::weights::{Pays, PostDispatchInfo};
use vstd::prelude::*;

verus! {

/// An administrator who tries to disable the own account is refused with
/// `InvalidAction`, and nothing changes.
pub proof fn law_self_disable_is_invalid(state: ModuleState, caller: AccountId)
    requires
        state.is_admin(caller),
    ensures
        state.account_disable(caller, caller) == (
            state,
            Err::<Event, Error>(Error::InvalidAction),
        ),
{
}

/// Nobody can disable the own account, whatever role the caller has: the
/// call fails and nothing changes.
pub proof fn law_self_disable_never_succeeds(state: ModuleState, caller: AccountId)
    ensures
        state.account_disable(caller, caller).1 is Err,
        state.account_disable(caller, caller).0 == state,
{
}

/// A caller without the admin role is refused with `NotAuthorized` by
/// every privileged operation, and the state stays as it was.
pub proof fn law_non_admin_is_refused(
    state: ModuleState,
    caller: AccountId,
    target: AccountId,
    role: AccountRole,
    now: Moment,
    amount: Balance,
    value: u32,
)
    requires
        !state.is_admin(caller),
    ensures
        state.account_add(caller, target, role, now) == (
            state,
            Err::<Event, Error>(Error::NotAuthorized),
        ),
        state.account_disable(caller, target) == (
            state,
            Err::<Event, Error>(Error::NotAuthorized),
        ),
        state.account_transfer_and_lock(caller, target, amount) == Err::<TransferAndLock, Error>(
            Error::NotAuthorized,
        ),
        state.update_something(caller, value) == (
            state,
            Err::<(PostDispatchInfo, Event), Error>(Error::NotAuthorized),
        ),
{
}

/// An identity that the registry does not hold is no administrator.
pub proof fn law_absent_is_no_admin(state: ModuleState, id: AccountId)
    requires
        !state.registry.contains_key(id),
    ensures
        !state.is_admin(id),
        !state.account(id).spec_is_enable(),
{
    assert(0u8 & 0x01 == 0) by (bit_vector);
}

/// An administrator who disables an identity that the registry does not
/// hold is refused with `NotExists`, and nothing changes.
pub proof fn law_disable_absent_not_exists(state: ModuleState, caller: AccountId, target: AccountId)
    requires
        state.is_admin(caller),
        !state.registry.contains_key(target),
    ensures
        state.account_disable(caller, target) == (state, Err::<Event, Error>(Error::NotExists)),
{
    law_absent_is_no_admin(state, target);
}

/// Whoever calls: disabling an identity that the registry does not hold
/// fails, and nothing changes.
pub proof fn law_disable_absent_never_succeeds(
    state: ModuleState,
    caller: AccountId,
    target: AccountId,
)
    requires
        !state.registry.contains_key(target),
    ensures
        state.account_disable(caller, target).1 is Err,
        state.account_disable(caller, target).0 == state,
{
}

/// Once an add has succeeded, the account reads as enabled exactly when the
/// role given is not zero. It carries that role, and the creation time it
/// had before, or `now` where it had none.
pub proof fn law_added_account_is_enabled(
    state: ModuleState,
    caller: AccountId,
    target: AccountId,
    role: AccountRole,
    now: Moment,
)
    requires
        state.account_add(caller, target, role, now).1 is Ok,
    ensures
        ({
            let after = state.account_add(caller, target, role, now).0;
            &&& after.registry.contains_key(target)
            &&& after.account(target).spec_is_enable() == (role != 0)
            &&& after.account(target).roles == role
            &&& after.account(target).create_time == if state.account(target).create_time == 0 {
                now
            } else {
                state.account(target).create_time
            }
        }),
{
}

/// Once a disable has succeeded, the registry no longer holds the account,
/// and the identity reads as disabled.
pub proof fn law_disabled_account_is_absent(
    state: ModuleState,
    caller: AccountId,
    target: AccountId,
)
    requires
        state.account_disable(caller, target).1 is Ok,
    ensures
        ({
            let after = state.account_disable(caller, target).0;
            &&& !after.registry.contains_key(target)
            &&& !after.account(target).spec_is_enable()
            &&& !after.is_admin(target)
        }),
{
    let after = state.account_disable(caller, target).0;
    law_absent_is_no_admin(after, target);
}

/// Once an add has succeeded, the account is an administrator exactly when
/// the role given has the admin bit. An account that was given a role
/// without it is refused by every privileged operation.
pub proof fn law_added_account_admin_by_role(
    state: ModuleState,
    caller: AccountId,
    target: AccountId,
    role: AccountRole,
    now: Moment,
    other: AccountId,
)
    requires
        state.account_add(caller, target, role, now).1 is Ok,
    ensures
        ({
            let after = state.account_add(caller, target, role, now).0;
            &&& after.is_admin(target) == (role & 0x01 != 0)
            &&& role & 0x01 == 0 ==> after.account_add(target, other, role, now) == (
                after,
                Err::<Event, Error>(Error::NotAuthorized),
            )
        }),
{
}

/// Once a disable has succeeded, the account that was removed is refused by
/// every privileged operation.
pub proof fn law_disabled_account_loses_rights(
    state: ModuleState,
    caller: AccountId,
    target: AccountId,
    other: AccountId,
    role: AccountRole,
    now: Moment,
    amount: Balance,
    value: u32,
)
    requires
        state.account_disable(caller, target).1 is Ok,
    ensures
        ({
            let after = state.account_disable(caller, target).0;
            &&& after.account_add(target, other, role, now).1 == Err::<Event, Error>(
                Error::NotAuthorized,
            )
            &&& after.account_disable(target, other).1 == Err::<Event, Error>(
                Error::NotAuthorized,
            )
            &&& after.account_transfer_and_lock(target, other, amount) == Err::<
                TransferAndLock,
                Error,
            >(Error::NotAuthorized)
            &&& after.update_something(target, value).1 == Err::<
                (PostDispatchInfo, Event),
                Error,
            >(Error::NotAuthorized)
        }),
{
    let after = state.account_disable(caller, target).0;
    law_absent_is_no_admin(after, target);
}

/// In the state that a seed list produces, an identity has the role of the
/// last entry that names it, and the creation time zero; an identity that
/// no entry names has no account. No value is stored.
pub proof fn law_genesis_state(seed: Seq<(AccountId, AccountRole)>, id: AccountId)
    ensures
        ModuleState::genesis(seed).something is None,
        ModuleState::genesis(seed).registry.contains_key(id) <==> exists|i: int|
            0 <= i < seed.len() && (#[trigger] seed[i]).0 == id,
        forall|i: int|
            0 <= i < seed.len() && seed[i].0 == id && (forall|j: int|
                i < j < seed.len() ==> (#[trigger] seed[j]).0 != id) ==> {
                &&& ModuleState::genesis(seed).account(id) == (Account {
                    roles: #[trigger] seed[i].1,
                    create_time: 0,
                })
                &&& ModuleState::genesis(seed).is_admin(id) == (seed[i].1 & 0x01 != 0)
            },
{
    crate::registry::lemma_genesis_map(seed, id);
}

/// An add or a disable touches the account of its target only, and never
/// the stored value.
pub proof fn law_other_accounts_untouched(
    state: ModuleState,
    caller: AccountId,
    target: AccountId,
    role: AccountRole,
    now: Moment,
    other: AccountId,
)
    requires
        other != target,
    ensures
        ({
            let added = state.account_add(caller, target, role, now).0;
            let disabled = state.account_disable(caller, target).0;
            &&& added.registry.contains_key(other) == state.registry.contains_key(other)
            &&& added.account(other) == state.account(other)
            &&& added.something == state.something
            &&& disabled.registry.contains_key(other) == state.registry.contains_key(other)
            &&& disabled.account(other) == state.account(other)
            &&& disabled.something == state.something
        }),
{
}

/// A call that is rejected leaves the state as it was.
pub proof fn law_rejected_call_changes_nothing(
    state: ModuleState,
    caller: AccountId,
    target: AccountId,
    role: AccountRole,
    now: Moment,
    value: u32,
)
    ensures
        state.account_add(caller, target, role, now).1 is Err ==> state.account_add(
            caller,
            target,
            role,
            now,
        ).0 == state,
        state.account_disable(caller, target).1 is Err ==> state.account_disable(
            caller,
            target,
        ).0 == state,
        state.update_something(caller, value).1 is Err ==> state.update_something(
            caller,
            value,
        ).0 == state,
        state.do_something(caller, value).1 is Ok,
{
}

/// An administrator who updates the stored value is exempt from the fee
/// exactly when there was a value before and the new one is smaller. The
/// new value is stored either way, and the event names it.
pub proof fn law_update_fee_exemption(state: ModuleState, caller: AccountId, value: u32)
    requires
        state.is_admin(caller),
    ensures
        ({
            let (after, outcome) = state.update_something(caller, value);
            &&& after.something == Some(value)
            &&& after.registry == state.registry
            &&& outcome matches Ok(done)
            &&& done.1 == Event::SomethingStored(value, caller)
            &&& done.0.actual_weight is None
            &&& done.0.pays_fee == Pays::No <==> (state.something matches Some(previous)
                && previous > value)
        }),
{
}

/// The reasons under which the module holds a balance leave out the payment
/// of transaction fees, and nothing else among the five reasons.
pub proof fn law_hold_exempts_fee_payment_only()
    ensures
        ALL_BUT_TRANSACTION_PAYMENT & TRANSACTION_PAYMENT == 0,
        ALL_BUT_TRANSACTION_PAYMENT | TRANSACTION_PAYMENT == 0b0001_1111,
{
    assert(0b0001_1110i8 & 0b0000_0001i8 == 0) by (bit_vector);
    assert(0b0001_1110i8 | 0b0000_0001i8 == 0b0001_1111i8) by (bit_vector);
}

/// A transfer-and-lock that an administrator starts, and that the ledger
/// carries out, asks the ledger for three calls in this order: the
/// transfer of the amount from the caller to the target, which may drain
/// the caller; the free balance of the target; and a hold on all of that
/// balance under every reason but the payment of transaction fees. It ends
/// with the event that names the target and the balance held.
pub proof fn law_transfer_and_lock_run<E>(
    state: ModuleState,
    sender: AccountId,
    whom: AccountId,
    amount: Balance,
    balance: Balance,
)
    requires
        state.is_admin(sender),
    ensures
        ({
            let started = state.account_transfer_and_lock(sender, whom, amount);
            &&& started matches Ok(first)
            &&& first.spec_request() == (LedgerCall::Transfer {
                source: sender,
                dest: whom,
                amount,
                existence: ExistenceRequirement::AllowDeath,
            })
            &&& first.spec_resume(LedgerReply::<E>::Transferred(Ok(()))) matches Some(
                Step::Continue(second),
            )
            &&& second.spec_request() == (LedgerCall::FreeBalance { who: whom })
            &&& second.spec_resume(LedgerReply::<E>::FreeBalance(balance)) matches Some(
                Step::Continue(third),
            )
            &&& third.spec_request() == (LedgerCall::SetLock {
                id: FEE_LOCK_ID,
                who: whom,
                amount: balance,
                reasons: ALL_BUT_TRANSACTION_PAYMENT,
            })
            &&& third.spec_resume(LedgerReply::<E>::LockSet) == Some(
                Step::Finished(Ok::<Event, E>(Event::BalanceLocked(whom, balance))),
            )
        }),
{
}

/// Where the ledger refuses the transfer, the workflow ends with the
/// ledger's error as it came, and asks for nothing more.
pub proof fn law_failed_transfer_ends_workflow<E>(
    sender: AccountId,
    whom: AccountId,
    amount: Balance,
    error: E,
)
    ensures
        (TransferAndLock::Transferring { sender, whom, amount }).spec_resume(
            LedgerReply::Transferred(Err(error)),
        ) == Some(Step::Finished(Err::<Event, E>(error))),
{
}

} // verus!
