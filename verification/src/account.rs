//! Accounts and the role bitmask they carry.

use vstd::prelude::*;

verus! {

/// Identity of a principal.
pub type AccountId = u64;

/// Bitmask of the roles granted to an account.
pub type AccountRole = u8;

/// Point in time, in the unit of the clock that stamps accounts.
pub type Moment = u64;

/// No role at all: the account is disabled.
pub const NONE_ROLE: AccountRole = 0x00;

/// Role bit that grants administrative rights.
pub const ADMIN_ROLE: AccountRole = 0x01;

/// Role bit of an ordinary user. No operation branches on it.
pub const USER_ROLE: AccountRole = 0x02;

/// Whether the admin bit is set in `roles`.
pub open spec fn role_is_admin(roles: AccountRole) -> bool {
    roles & 0x01 != 0
}

/// Whether any role bit is set in `roles`.
pub open spec fn role_is_enabled(roles: AccountRole) -> bool {
    roles != 0
}

/// Authorization state of one registered principal.
#[derive(Clone, Copy, Debug, PartialEq, Eq, Structural)]
pub struct Account {
    pub roles: AccountRole,
    pub create_time: Moment,
}

impl Account {
    /// The account that stands for an identity the registry does not hold:
    /// no role, created at time zero.
    pub open spec fn spec_default() -> Account {
        Account { roles: 0, create_time: 0 }
    }

    pub open spec fn spec_is_admin(&self) -> bool {
        role_is_admin(self.roles)
    }

    pub open spec fn spec_is_enable(&self) -> bool {
        role_is_enabled(self.roles)
    }

    /// True exactly when the admin bit is set.
    #[verifier::when_used_as_spec(spec_is_admin)]
    pub fn is_admin(&self) -> (b: bool)
        ensures
            b == (self.roles & 0x01 != 0),
            b == self.spec_is_admin(),
    {
        (self.roles & ADMIN_ROLE) != 0
    }

    /// True exactly when at least one role bit is set.
    #[verifier::when_used_as_spec(spec_is_enable)]
    pub fn is_enable(&self) -> (b: bool)
        ensures
            b == (self.roles != 0),
            b == self.spec_is_enable(),
    {
        self.roles != 0
    }

    /// Validity check of a role bitmask. Every bitmask is valid.
    pub fn is_role_correct(_role: AccountRole) -> (b: bool)
        ensures
            b,
    {
        true
    }

    /// Time elapsed between the account's creation and `now`.
    pub fn age(&self, now: Moment) -> (elapsed: Moment)
        requires
            self.create_time <= now,
        ensures
            elapsed == now - self.create_time,
    {
        now - self.create_time
    }

    /// An administrator created at time zero.
    pub fn new_admin() -> (account: Account)
        ensures
            account == (Account { roles: ADMIN_ROLE, create_time: 0 }),
    {
        Account { roles: ADMIN_ROLE, create_time: 0 }
    }
}

impl Default for Account {
    fn default() -> (account: Account)
        ensures
            account == Account::spec_default(),
    {
        Account { roles: NONE_ROLE, create_time: 0 }
    }
}

/// An account with the admin bit is enabled.
pub proof fn lemma_admin_is_enabled(roles: AccountRole)
    requires
        role_is_admin(roles),
    ensures
        role_is_enabled(roles),
{
    assert(roles & 0x01 != 0 ==> roles != 0) by (bit_vector);
}

} // verus!
