use pallet_template::account::{Account, ADMIN_ROLE, NONE_ROLE, USER_ROLE};

#[test]
fn role_constants() {
    assert_eq!(NONE_ROLE, 0x00);
    assert_eq!(ADMIN_ROLE, 0x01);
    assert_eq!(USER_ROLE, 0x02);
}

#[test]
fn is_admin_follows_bit_zero_for_every_bitmask() {
    for roles in 0..=u8::MAX {
        let account = Account { roles, create_time: 7 };
        assert_eq!(account.is_admin(), (roles & 0x01) != 0, "roles {}", roles);
    }
}

#[test]
fn is_enable_means_nonzero_for_every_bitmask() {
    for roles in 0..=u8::MAX {
        let account = Account { roles, create_time: 7 };
        assert_eq!(account.is_enable(), roles != 0, "roles {}", roles);
    }
}

#[test]
fn user_is_enabled_but_no_admin() {
    let account = Account { roles: USER_ROLE, create_time: 0 };
    assert!(account.is_enable());
    assert!(!account.is_admin());
}

#[test]
fn admin_and_user_bits_together() {
    let account = Account { roles: ADMIN_ROLE | USER_ROLE, create_time: 0 };
    assert!(account.is_enable());
    assert!(account.is_admin());
}

#[test]
fn high_bits_do_not_grant_admin() {
    let account = Account { roles: 0xfe, create_time: 0 };
    assert!(account.is_enable());
    assert!(!account.is_admin());
}

#[test]
fn default_account_has_no_role() {
    let account = Account::default();
    assert_eq!(account, Account { roles: 0, create_time: 0 });
    assert!(!account.is_enable());
    assert!(!account.is_admin());
}

#[test]
fn new_admin_is_admin_created_at_zero() {
    let account = Account::new_admin();
    assert_eq!(account, Account { roles: ADMIN_ROLE, create_time: 0 });
    assert!(account.is_admin());
    assert!(account.is_enable());
}

#[test]
fn every_role_is_correct() {
    for roles in 0..=u8::MAX {
        assert!(Account::is_role_correct(roles));
    }
}

#[test]
fn age_is_the_time_since_creation() {
    let account = Account { roles: USER_ROLE, create_time: 5000 };
    assert_eq!(account.age(20000), 15000);
    assert_eq!(account.age(5000), 0);
    assert_eq!(Account::new_admin().age(u64::MAX), u64::MAX);
}
