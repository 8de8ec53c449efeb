//! The module's state and its operations.
//!
//! Every operation is called with the identity of an already authenticated
//! caller. It checks, then changes the state, then returns the event to emit;
//! a rejected call leaves the state as it was.

use crate::account::{Account, AccountId, AccountRole, Moment};
use crate::lock::TransferAndLock;
use crate::registry::AccountRegistry;
use crate::weights::{Pays, PostDispatchInfo};
use vstd::prelude::*;

verus! {

/// Amount of currency.
pub type Balance = u128;

/// Why a call was rejected.
#[derive(Clone, Copy, Debug, PartialEq, Eq, Structural)]
pub enum Error {
    /// The value store is empty.
    NoneValue,
    /// The request is not allowed as such.
    InvalidAction,
    /// The role supplied is not a valid one.
    InvalidData,
    /// The caller is no administrator.
    NotAuthorized,
    /// The registry holds no account for the target.
    NotExists,
}

/// What an accepted call reports.
#[derive(Clone, Copy, Debug, PartialEq, Eq, Structural)]
pub enum Event {
    /// The stored value was set: the value, and who set it.
    SomethingStored(u32, AccountId),
    /// An account was created or its role changed: who did it, the account,
    /// its role.
    AccountCreated(AccountId, AccountId, AccountRole),
    /// An account was removed: who did it, the account.
    AccountDisabled(AccountId, AccountId),
    /// A hold was placed on an account: the account, the amount held.
    BalanceLocked(AccountId, Balance),
}

/// The creation time that an add leaves on an account: the time it had, or
/// `now` where it had none.
pub open spec fn stamped(previous: Moment, now: Moment) -> Moment {
    if previous == 0 {
        now
    } else {
        previous
    }
}

/// Whether a role bitmask is a valid one. Every bitmask is.
pub open spec fn role_is_correct(role: AccountRole) -> bool {
    true
}

/// The state of the module as a mathematical value.
#[verifier::ext_equal]
pub struct ModuleState {
    /// The accounts by identity.
    pub registry: Map<AccountId, Account>,
    /// The stored value, if one was ever set.
    pub something: Option<u32>,
}

impl ModuleState {
    /// The state with the accounts of `accounts`, a later entry standing
    /// where two name one identity, and with the stored value `something`.
    pub open spec fn with_accounts(
        accounts: Seq<(AccountId, Account)>,
        something: Option<u32>,
    ) -> ModuleState {
        ModuleState { registry: crate::registry::accounts_map(accounts), something }
    }

    /// The state that a seed list produces.
    pub open spec fn genesis(seed: Seq<(AccountId, AccountRole)>) -> ModuleState {
        ModuleState { registry: crate::registry::genesis_map(seed), something: None }
    }

    /// The account of `id`, the default account where there is none.
    pub open spec fn account(self, id: AccountId) -> Account {
        crate::registry::account_of(self.registry, id)
    }

    /// Whether `who` holds the admin role.
    pub open spec fn is_admin(self, who: AccountId) -> bool {
        self.account(who).spec_is_admin()
    }

    /// State and outcome of `who` giving `account` the role `role` at time
    /// `now`.
    pub open spec fn account_add(
        self,
        who: AccountId,
        account: AccountId,
        role: AccountRole,
        now: Moment,
    ) -> (ModuleState, Result<Event, Error>) {
        if !role_is_correct(role) {
            (self, Err(Error::InvalidData))
        } else if !self.is_admin(who) {
            (self, Err(Error::NotAuthorized))
        } else {
            let stored = Account {
                roles: role,
                create_time: stamped(self.account(account).create_time, now),
            };
            (
                ModuleState { registry: self.registry.insert(account, stored), ..self },
                Ok(Event::AccountCreated(who, account, role)),
            )
        }
    }

    /// State and outcome of `who` disabling `whom`.
    pub open spec fn account_disable(self, who: AccountId, whom: AccountId) -> (
        ModuleState,
        Result<Event, Error>,
    ) {
        if !self.is_admin(who) {
            (self, Err(Error::NotAuthorized))
        } else if who == whom {
            (self, Err(Error::InvalidAction))
        } else if !self.registry.contains_key(whom) {
            (self, Err(Error::NotExists))
        } else {
            (
                ModuleState { registry: self.registry.remove(whom), ..self },
                Ok(Event::AccountDisabled(who, whom)),
            )
        }
    }

    /// State and outcome of `who` setting the stored value.
    pub open spec fn do_something(self, who: AccountId, something: u32) -> (
        ModuleState,
        Result<Event, Error>,
    ) {
        (
            ModuleState { something: Some(something), ..self },
            Ok(Event::SomethingStored(something, who)),
        )
    }

    /// State and outcome of `who` updating the stored value.
    pub open spec fn update_something(self, who: AccountId, something: u32) -> (
        ModuleState,
        Result<(PostDispatchInfo, Event), Error>,
    ) {
        if !self.is_admin(who) {
            (self, Err(Error::NotAuthorized))
        } else {
            (
                ModuleState { something: Some(something), ..self },
                Ok(
                    (
                        PostDispatchInfo {
                            actual_weight: None,
                            pays_fee: Pays::spec_for_update(self.something, something),
                        },
                        Event::SomethingStored(something, who),
                    ),
                ),
            )
        }
    }

    /// Outcome of `sender` starting to transfer `amount` to `whom` and to
    /// hold it there. Starting changes nothing in the state.
    pub open spec fn account_transfer_and_lock(
        self,
        sender: AccountId,
        whom: AccountId,
        amount: Balance,
    ) -> Result<TransferAndLock, Error> {
        if !self.is_admin(sender) {
            Err(Error::NotAuthorized)
        } else {
            Ok(TransferAndLock::Transferring { sender, whom, amount })
        }
    }
}

/// The module: the account registry and the stored value.
pub struct Module {
    registry: AccountRegistry,
    something: Option<u32>,
}

impl View for Module {
    type V = ModuleState;

    closed spec fn view(&self) -> ModuleState {
        ModuleState { registry: self.registry@, something: self.something }
    }
}

impl Module {
    /// The module that holds the accounts of `accounts` and the stored value
    /// `something`. Where the list names an identity twice, the later entry
    /// stands.
    pub fn new(accounts: &Vec<(AccountId, Account)>, something: Option<u32>) -> (module: Module)
        ensures
            module@ == ModuleState::with_accounts(accounts@, something),
    {
        Module { registry: AccountRegistry::from_accounts(accounts), something }
    }

    /// The module as it is before any call: the registry seeded from
    /// `seed`, every seeded account created at time zero, and no stored
    /// value. With an empty list nobody is an administrator.
    pub fn from_genesis(seed: &Vec<(AccountId, AccountRole)>) -> (module: Module)
        ensures
            module@ == ModuleState::genesis(seed@),
    {
        Module { registry: AccountRegistry::from_genesis(seed), something: None }
    }

    /// The stored value.
    pub fn something(&self) -> (value: Option<u32>)
        ensures
            value == self@.something,
    {
        self.something
    }

    /// The account of `id`; the default account, which has no role, where
    /// the registry holds none.
    pub fn account_registry(&self, id: AccountId) -> (account: Account)
        ensures
            account == self@.account(id),
    {
        self.registry.get(&id)
    }

    /// Whether the registry holds an account for `id`.
    pub fn contains_account(&self, id: AccountId) -> (present: bool)
        ensures
            present == self@.registry.contains_key(id),
    {
        self.registry.contains_key(&id)
    }

    /// Whether `acc` holds the admin role. An identity that the registry
    /// does not hold is no administrator.
    pub fn account_is_admin(&self, acc: &AccountId) -> (admin: bool)
        ensures
            admin == self@.is_admin(*acc),
    {
        self.registry.get(acc).is_admin()
    }

    /// Creates the account `account` with the role `role`, or changes its
    /// role. Only an administrator may do so. An account that is new, or
    /// whose creation time is zero, is stamped with `now`; otherwise its
    /// creation time stays.
    pub fn account_add(
        &mut self,
        who: AccountId,
        account: AccountId,
        role: AccountRole,
        now: Moment,
    ) -> (result: Result<Event, Error>)
        ensures
            final(self)@ == old(self)@.account_add(who, account, role, now).0,
            result == old(self)@.account_add(who, account, role, now).1,
            !old(self)@.is_admin(who) ==> result == Err::<Event, Error>(Error::NotAuthorized)
                && final(self)@ == old(self)@,
            old(self)@.is_admin(who) ==> result == Ok::<Event, Error>(
                Event::AccountCreated(who, account, role),
            ),
            result is Ok ==> final(self)@.account(account).spec_is_enable() == (role != 0),
    {
        if !Account::is_role_correct(role) {
            return Err(Error::InvalidData);
        }
        if !self.account_is_admin(&who) {
            return Err(Error::NotAuthorized);
        }
        let mut stored = self.registry.get(&account);
        stored.roles = role;
        if stored.create_time == 0 {
            stored.create_time = now;
        }
        self.registry.insert(account, stored);
        Ok(Event::AccountCreated(who, account, role))
    }

    /// Removes the account `whom` from the registry. Only an administrator
    /// may do so, nobody may remove the own account, and the account must be
    /// there.
    pub fn account_disable(&mut self, who: AccountId, whom: AccountId) -> (result: Result<
        Event,
        Error,
    >)
        ensures
            final(self)@ == old(self)@.account_disable(who, whom).0,
            result == old(self)@.account_disable(who, whom).1,
            result is Err ==> final(self)@ == old(self)@,
            !old(self)@.is_admin(who) ==> result == Err::<Event, Error>(Error::NotAuthorized),
            old(self)@.is_admin(who) && who == whom ==> result == Err::<Event, Error>(
                Error::InvalidAction,
            ),
            old(self)@.is_admin(who) && who != whom && !old(self)@.registry.contains_key(whom)
                ==> result == Err::<Event, Error>(Error::NotExists),
            result is Ok ==> !final(self)@.registry.contains_key(whom),
    {
        if !self.account_is_admin(&who) {
            return Err(Error::NotAuthorized);
        }
        if who == whom {
            return Err(Error::InvalidAction);
        }
        if !self.registry.contains_key(&whom) {
            return Err(Error::NotExists);
        }
        self.registry.remove(&whom);
        Ok(Event::AccountDisabled(who, whom))
    }

    /// Sets the stored value. Any caller may do so.
    pub fn do_something(&mut self, who: AccountId, something: u32) -> (result: Result<
        Event,
        Error,
    >)
        ensures
            final(self)@ == old(self)@.do_something(who, something).0,
            result == old(self)@.do_something(who, something).1,
            result == Ok::<Event, Error>(Event::SomethingStored(something, who)),
            final(self)@.something == Some(something),
            final(self)@.registry == old(self)@.registry,
    {
        self.something = Some(something);
        Ok(Event::SomethingStored(something, who))
    }

    /// Sets the stored value, as an administrator. The caller is exempt from
    /// the fee exactly when there was a value before and the new one is
    /// smaller. The value is stored before the event is handed out.
    pub fn update_something(&mut self, who: AccountId, something: u32) -> (result: Result<
        (PostDispatchInfo, Event),
        Error,
    >)
        ensures
            final(self)@ == old(self)@.update_something(who, something).0,
            result == old(self)@.update_something(who, something).1,
            !old(self)@.is_admin(who) ==> result == Err::<(PostDispatchInfo, Event), Error>(
                Error::NotAuthorized,
            ) && final(self)@ == old(self)@,
            old(self)@.is_admin(who) ==> result is Ok && final(self)@.something == Some(something)
                && final(self)@.registry == old(self)@.registry,
            result matches Ok(done) ==> done.1 == Event::SomethingStored(something, who)
                && done.0.actual_weight is None && (done.0.pays_fee == Pays::No <==> (
            old(self)@.something matches Some(previous) && previous > something)),
    {
        if !self.account_is_admin(&who) {
            return Err(Error::NotAuthorized);
        }
        let pays_fee = Pays::for_update(self.something, something);
        self.something = Some(something);
        Ok(
            (
                PostDispatchInfo { actual_weight: None, pays_fee },
                Event::SomethingStored(something, who),
            ),
        )
    }

    /// Starts the transfer of `amount` from `sender` to `whom`, to be
    /// followed by a hold on all that `whom` then has. Only an administrator
    /// may do so. The module's state does not change; the work is done on
    /// the currency ledger, step by step, as the returned workflow asks.
    pub fn account_transfer_and_lock(
        &self,
        sender: AccountId,
        whom: AccountId,
        amount: Balance,
    ) -> (result: Result<TransferAndLock, Error>)
        ensures
            result == self@.account_transfer_and_lock(sender, whom, amount),
            !self@.is_admin(sender) ==> result == Err::<TransferAndLock, Error>(
                Error::NotAuthorized,
            ),
            self@.is_admin(sender) ==> result == Ok::<TransferAndLock, Error>(
                TransferAndLock::Transferring { sender, whom, amount },
            ),
    {
        if !self.account_is_admin(&sender) {
            return Err(Error::NotAuthorized);
        }
        Ok(TransferAndLock::Transferring { sender, whom, amount })
    }
}

} // verus!
