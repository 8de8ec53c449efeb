use pallet_template::account::{Account, ADMIN_ROLE, NONE_ROLE, USER_ROLE};
use pallet_template::pallet::{Error, Event, Module};
use pallet_template::weights::{Pays, PostDispatchInfo};

/// The seed of every test: identity 1 is the administrator.
fn new_test_ext() -> Host {
    Host { module: Module::from_genesis(&vec![(1, ADMIN_ROLE)]), events: Vec::new(), now: 0 }
}

/// Stands for the host: it knows the time and keeps the events.
struct Host {
    module: Module,
    events: Vec<Event>,
    now: u64,
}

impl Host {
    fn set_timestamp(&mut self, now: u64) {
        self.now = now;
    }

    fn account_add(&mut self, who: u64, account: u64, role: u8) -> Result<(), Error> {
        let event = self.module.account_add(who, account, role, self.now)?;
        self.events.push(event);
        Ok(())
    }

    fn account_disable(&mut self, who: u64, whom: u64) -> Result<(), Error> {
        let event = self.module.account_disable(who, whom)?;
        self.events.push(event);
        Ok(())
    }

    fn do_something(&mut self, who: u64, something: u32) -> Result<(), Error> {
        let event = self.module.do_something(who, something)?;
        self.events.push(event);
        Ok(())
    }

    fn update_something(&mut self, who: u64, something: u32) -> Result<PostDispatchInfo, Error> {
        let (info, event) = self.module.update_something(who, something)?;
        self.events.push(event);
        Ok(info)
    }

    /// The events since the last call, which are then forgotten.
    fn events(&mut self) -> Vec<Event> {
        std::mem::take(&mut self.events)
    }

    /// All that can be seen of the state, for the identities up to 15.
    fn snapshot(&self) -> (Vec<(bool, Account)>, Option<u32>, usize) {
        let accounts = (0..16u64)
            .map(|id| (self.module.contains_account(id), self.module.account_registry(id)))
            .collect();
        (accounts, self.module.something(), self.events.len())
    }
}

#[test]
fn it_works_for_default_value() {
    let mut host = new_test_ext();
    // Dispatch a signed extrinsic.
    assert_eq!(host.do_something(1, 42), Ok(()));
    assert_eq!(host.events(), vec![Event::SomethingStored(42, 1)]);

    // Read pallet storage and assert an expected result.
    assert_eq!(host.module.something(), Some(42));
    assert_eq!(host.events(), vec![]);
}

#[test]
fn it_create_new_account() {
    let mut host = new_test_ext();
    let account = host.module.account_registry(2);
    assert!(!account.is_enable());

    host.set_timestamp(5000);
    assert_eq!(host.account_add(1, 2, USER_ROLE), Ok(()));

    let account = host.module.account_registry(2);
    assert!(account.is_enable());

    let age = account.age(20000);
    assert_eq!(age, 15000);

    assert_eq!(host.do_something(2, 20), Ok(()));
    assert_eq!(host.module.something(), Some(20));
}

#[test]
fn it_disable_account() {
    let mut host = new_test_ext();
    assert_eq!(host.account_add(1, 2, USER_ROLE), Ok(()));
    assert_eq!(host.account_disable(1, 2), Ok(()));
    assert!(!host.module.account_registry(2).is_enable());
}

#[test]
fn it_try_disable_themself() {
    let mut host = new_test_ext();
    let before = host.snapshot();
    assert_eq!(host.account_disable(1, 1), Err(Error::InvalidAction));
    assert_eq!(host.snapshot(), before);
    assert!(host.module.account_registry(1).is_enable());
}

#[test]
fn it_try_create_by_user() {
    let mut host = new_test_ext();
    assert_eq!(host.account_add(1, 2, USER_ROLE), Ok(()));
    let before = host.snapshot();
    assert_eq!(host.account_add(2, 3, USER_ROLE), Err(Error::NotAuthorized));
    assert_eq!(host.snapshot(), before);
}

#[test]
fn genesis_state_has_the_seed_and_no_value() {
    let host = new_test_ext();
    assert_eq!(host.module.account_registry(1), Account { roles: ADMIN_ROLE, create_time: 0 });
    assert!(host.module.contains_account(1));
    assert!(!host.module.contains_account(2));
    assert_eq!(host.module.something(), None);
    assert!(host.module.account_is_admin(&1));
    assert!(!host.module.account_is_admin(&2));
}

#[test]
fn module_from_accounts_and_value() {
    let module = Module::new(
        &vec![
            (3, Account { roles: ADMIN_ROLE, create_time: 11 }),
            (4, Account { roles: USER_ROLE, create_time: 12 }),
        ],
        Some(8),
    );
    assert_eq!(module.account_registry(3), Account { roles: ADMIN_ROLE, create_time: 11 });
    assert_eq!(module.account_registry(4), Account { roles: USER_ROLE, create_time: 12 });
    assert!(module.account_is_admin(&3));
    assert!(!module.account_is_admin(&4));
    assert_eq!(module.something(), Some(8));
}

#[test]
fn account_is_admin_reads_the_admin_bit() {
    let module = Module::from_genesis(&vec![(1, ADMIN_ROLE), (2, USER_ROLE), (3, 0x03), (4, 0)]);
    assert!(module.account_is_admin(&1));
    assert!(!module.account_is_admin(&2));
    assert!(module.account_is_admin(&3));
    assert!(!module.account_is_admin(&4));
    assert!(!module.account_is_admin(&5));
}

#[test]
fn empty_seed_leaves_no_administrator() {
    let mut module = Module::from_genesis(&vec![]);
    assert_eq!(module.account_add(1, 1, ADMIN_ROLE, 10), Err(Error::NotAuthorized));
    assert_eq!(module.account_disable(1, 2), Err(Error::NotAuthorized));
    assert_eq!(module.update_something(1, 5), Err(Error::NotAuthorized));
    assert!(module.account_transfer_and_lock(1, 2, 5).is_err());
    assert!(!module.contains_account(1));
}

#[test]
fn account_add_emits_account_created() {
    let mut host = new_test_ext();
    host.set_timestamp(77);
    assert_eq!(host.account_add(1, 2, USER_ROLE), Ok(()));
    assert_eq!(host.events(), vec![Event::AccountCreated(1, 2, USER_ROLE)]);
    assert_eq!(host.module.account_registry(2), Account { roles: USER_ROLE, create_time: 77 });
    assert!(host.module.contains_account(2));
}

#[test]
fn account_add_keeps_the_creation_time_of_an_account_that_has_one() {
    let mut host = new_test_ext();
    host.set_timestamp(5000);
    assert_eq!(host.account_add(1, 2, USER_ROLE), Ok(()));
    host.set_timestamp(9000);
    assert_eq!(host.account_add(1, 2, ADMIN_ROLE), Ok(()));
    assert_eq!(host.module.account_registry(2), Account { roles: ADMIN_ROLE, create_time: 5000 });
    assert!(host.module.account_is_admin(&2));
}

#[test]
fn account_add_stamps_an_account_whose_creation_time_is_zero() {
    let mut host = new_test_ext();
    host.set_timestamp(1234);
    // The seeded administrator was created at time zero.
    assert_eq!(host.account_add(1, 1, ADMIN_ROLE | USER_ROLE), Ok(()));
    assert_eq!(
        host.module.account_registry(1),
        Account { roles: ADMIN_ROLE | USER_ROLE, create_time: 1234 }
    );
}

#[test]
fn account_add_at_time_zero_leaves_time_zero() {
    let mut host = new_test_ext();
    assert_eq!(host.account_add(1, 2, USER_ROLE), Ok(()));
    assert_eq!(host.module.account_registry(2), Account { roles: USER_ROLE, create_time: 0 });
    host.set_timestamp(40);
    assert_eq!(host.account_add(1, 2, USER_ROLE), Ok(()));
    assert_eq!(host.module.account_registry(2), Account { roles: USER_ROLE, create_time: 40 });
}

#[test]
fn account_add_enabled_exactly_when_role_is_not_zero() {
    for role in [NONE_ROLE, ADMIN_ROLE, USER_ROLE, 0x03, 0x80, 0xff] {
        let mut host = new_test_ext();
        host.set_timestamp(5);
        assert_eq!(host.account_add(1, 9, role), Ok(()));
        assert_eq!(host.module.account_registry(9).is_enable(), role != 0);
        assert!(host.module.contains_account(9));
    }
}

#[test]
fn account_add_with_role_zero_is_present_and_disabled() {
    let mut host = new_test_ext();
    host.set_timestamp(5);
    assert_eq!(host.account_add(1, 9, NONE_ROLE), Ok(()));
    assert!(host.module.contains_account(9));
    assert!(!host.module.account_registry(9).is_enable());
    // Present, so it can be disabled.
    assert_eq!(host.account_disable(1, 9), Ok(()));
    assert!(!host.module.contains_account(9));
}

#[test]
fn an_admin_can_take_the_own_admin_role_away() {
    let mut host = new_test_ext();
    assert_eq!(host.account_add(1, 1, USER_ROLE), Ok(()));
    assert!(!host.module.account_is_admin(&1));
    assert_eq!(host.account_add(1, 2, USER_ROLE), Err(Error::NotAuthorized));
}

#[test]
fn account_disable_emits_account_disabled_and_removes() {
    let mut host = new_test_ext();
    assert_eq!(host.account_add(1, 2, USER_ROLE), Ok(()));
    host.events();
    assert_eq!(host.account_disable(1, 2), Ok(()));
    assert_eq!(host.events(), vec![Event::AccountDisabled(1, 2)]);
    assert!(!host.module.contains_account(2));
    assert_eq!(host.module.account_registry(2), Account::default());
    assert!(host.module.contains_account(1));
}

#[test]
fn account_disable_twice_fails_with_not_exists() {
    let mut host = new_test_ext();
    assert_eq!(host.account_add(1, 2, USER_ROLE), Ok(()));
    assert_eq!(host.account_disable(1, 2), Ok(()));
    let before = host.snapshot();
    assert_eq!(host.account_disable(1, 2), Err(Error::NotExists));
    assert_eq!(host.snapshot(), before);
}

#[test]
fn account_disable_of_absent_identity_fails_with_not_exists() {
    let mut host = new_test_ext();
    let before = host.snapshot();
    assert_eq!(host.account_disable(1, 7), Err(Error::NotExists));
    assert_eq!(host.snapshot(), before);
}

#[test]
fn account_disable_by_non_admin_fails_with_not_authorized() {
    let mut host = new_test_ext();
    assert_eq!(host.account_add(1, 2, USER_ROLE), Ok(()));
    assert_eq!(host.account_add(1, 3, USER_ROLE), Ok(()));
    let before = host.snapshot();
    assert_eq!(host.account_disable(2, 3), Err(Error::NotAuthorized));
    assert_eq!(host.account_disable(2, 1), Err(Error::NotAuthorized));
    assert_eq!(host.account_disable(9, 3), Err(Error::NotAuthorized));
    assert_eq!(host.snapshot(), before);
}

#[test]
fn authorization_is_checked_before_self_disable() {
    let mut host = new_test_ext();
    assert_eq!(host.account_add(1, 2, USER_ROLE), Ok(()));
    let before = host.snapshot();
    // A user who is no administrator is refused for want of the role.
    assert_eq!(host.account_disable(2, 2), Err(Error::NotAuthorized));
    // An identity that is not registered likewise.
    assert_eq!(host.account_disable(9, 9), Err(Error::NotAuthorized));
    assert_eq!(host.snapshot(), before);
}

#[test]
fn one_admin_can_disable_another() {
    let mut host = new_test_ext();
    assert_eq!(host.account_add(1, 2, ADMIN_ROLE), Ok(()));
    assert_eq!(host.account_disable(2, 1), Ok(()));
    assert!(!host.module.contains_account(1));
    assert_eq!(host.account_add(1, 3, USER_ROLE), Err(Error::NotAuthorized));
    assert_eq!(host.account_disable(2, 2), Err(Error::InvalidAction));
}

#[test]
fn lifecycle_add_refuse_disable() {
    let mut host = new_test_ext();
    assert_eq!(host.account_add(1, 2, USER_ROLE), Ok(()));
    assert!(host.module.contains_account(2));
    assert_eq!(host.account_add(2, 3, USER_ROLE), Err(Error::NotAuthorized));
    assert!(!host.module.contains_account(3));
    assert_eq!(host.account_disable(1, 2), Ok(()));
    assert!(!host.module.contains_account(2));
    assert_eq!(
        host.events(),
        vec![Event::AccountCreated(1, 2, USER_ROLE), Event::AccountDisabled(1, 2)]
    );
}

#[test]
fn do_something_is_open_to_everyone() {
    let mut host = new_test_ext();
    assert_eq!(host.do_something(99, 7), Ok(()));
    assert_eq!(host.module.something(), Some(7));
    assert_eq!(host.do_something(1, 3), Ok(()));
    assert_eq!(host.module.something(), Some(3));
    assert_eq!(host.events(), vec![Event::SomethingStored(7, 99), Event::SomethingStored(3, 1)]);
    assert!(!host.module.contains_account(99));
}

#[test]
fn update_something_fee_exemption() {
    // Previous value 5, new value 3: a decrease, exempt.
    let mut host = new_test_ext();
    assert_eq!(host.do_something(1, 5), Ok(()));
    assert_eq!(
        host.update_something(1, 3),
        Ok(PostDispatchInfo { actual_weight: None, pays_fee: Pays::No })
    );
    assert_eq!(host.module.something(), Some(3));

    // Previous value 5, new value 7: an increase, the normal fee.
    let mut host = new_test_ext();
    assert_eq!(host.do_something(1, 5), Ok(()));
    assert_eq!(
        host.update_something(1, 7),
        Ok(PostDispatchInfo { actual_weight: None, pays_fee: Pays::Yes })
    );
    assert_eq!(host.module.something(), Some(7));

    // No previous value: the normal fee.
    let mut host = new_test_ext();
    assert_eq!(
        host.update_something(1, 3),
        Ok(PostDispatchInfo { actual_weight: None, pays_fee: Pays::Yes })
    );
    assert_eq!(host.module.something(), Some(3));
}

#[test]
fn update_something_with_the_same_value_pays() {
    let mut host = new_test_ext();
    assert_eq!(host.do_something(1, 5), Ok(()));
    assert_eq!(
        host.update_something(1, 5),
        Ok(PostDispatchInfo { actual_weight: None, pays_fee: Pays::Yes })
    );
    assert_eq!(host.update_something(1, 0).map(|info| info.pays_fee), Ok(Pays::No));
    assert_eq!(host.update_something(1, 0).map(|info| info.pays_fee), Ok(Pays::Yes));
    assert_eq!(host.update_something(1, u32::MAX).map(|info| info.pays_fee), Ok(Pays::Yes));
    assert_eq!(host.update_something(1, u32::MAX - 1).map(|info| info.pays_fee), Ok(Pays::No));
}

#[test]
fn update_something_emits_something_stored_either_way() {
    let mut host = new_test_ext();
    assert!(host.update_something(1, 300).is_ok());
    assert!(host.update_something(1, 100).is_ok());
    assert_eq!(
        host.events(),
        vec![Event::SomethingStored(300, 1), Event::SomethingStored(100, 1)]
    );
}

#[test]
fn update_something_by_non_admin_fails_with_not_authorized() {
    let mut host = new_test_ext();
    assert_eq!(host.do_something(2, 5), Ok(()));
    let before = host.snapshot();
    assert_eq!(host.update_something(2, 3), Err(Error::NotAuthorized));
    assert_eq!(host.snapshot(), before);
    assert_eq!(host.module.something(), Some(5));
}

#[test]
fn pays_for_update_decides_by_comparison() {
    assert_eq!(Pays::for_update(Some(5), 3), Pays::No);
    assert_eq!(Pays::for_update(Some(5), 5), Pays::Yes);
    assert_eq!(Pays::for_update(Some(5), 7), Pays::Yes);
    assert_eq!(Pays::for_update(None, 3), Pays::Yes);
    assert_eq!(Pays::for_update(None, 0), Pays::Yes);
    assert_eq!(Pays::for_update(Some(0), 0), Pays::Yes);
}
