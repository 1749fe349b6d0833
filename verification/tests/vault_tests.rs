use timelock_vault::auth::AuthContext;
use timelock_vault::store::{Identity, TokenId};
use timelock_vault::vault::{TimeLockedVault, Transfer, VaultError};

#[test]
fn test_initialize() {
    let owner = Identity { id: 1 };
    let beneficiary = Identity { id: 2 };
    let token = TokenId { id: 3 };
    let now: u64 = 0;
    let unlock_time = now + 1000;

    let mut vault = TimeLockedVault::new(Identity { id: 100 });
    assert_eq!(vault.initialize(owner, beneficiary, unlock_time, token, now), Ok(()));

    assert_eq!(vault.get_owner(), Ok(owner));
    assert_eq!(vault.get_beneficiary(), Ok(beneficiary));
    assert_eq!(vault.get_unlock_time(), Ok(unlock_time));
    assert_eq!(vault.get_token(), Ok(token));
    assert_eq!(vault.get_deposited_amount(), Ok(0));
}

#[test]
fn test_deposit_negative_amount() {
    let owner = Identity { id: 1 };
    let beneficiary = Identity { id: 2 };
    let token = TokenId { id: 3 };

    let mut vault = TimeLockedVault::new(Identity { id: 100 });
    assert_eq!(vault.initialize(owner, beneficiary, 1000, token, 0), Ok(()));

    let mut auth = AuthContext::new();
    auth.endorse(owner);
    assert_eq!(vault.deposit(owner, -1, &auth), Err(VaultError::InvalidAmount));
    assert_eq!(vault.get_deposited_amount(), Ok(0));
}

#[test]
fn test_deposit_and_withdraw() {
    let owner = Identity { id: 1 };
    let beneficiary = Identity { id: 2 };
    let custody = Identity { id: 100 };
    let token = TokenId { id: 3 };

    // Ledger balances owned by the external transfer service; the test
    // plays that role by applying each returned transfer instruction.
    let mut owner_balance: i128 = 1000;
    let mut beneficiary_balance: i128 = 0;
    let mut custody_balance: i128 = 0;

    let now: u64 = 0;
    let unlock_time = now + 100;
    let mut vault = TimeLockedVault::new(custody);
    assert_eq!(vault.initialize(owner, beneficiary, unlock_time, token, now), Ok(()));

    let mut owner_auth = AuthContext::new();
    owner_auth.endorse(owner);
    let t = vault.deposit(owner, 500, &owner_auth).unwrap();
    assert_eq!(t, Transfer { from: owner, to: custody, token, amount: 500 });
    owner_balance -= t.amount;
    custody_balance += t.amount;
    assert_eq!(custody_balance, 500);
    assert_eq!(owner_balance, 500);
    assert_eq!(vault.get_deposited_amount(), Ok(500));

    // Attempt early withdrawal (should fail)
    let mut beneficiary_auth = AuthContext::new();
    beneficiary_auth.endorse(beneficiary);
    assert_eq!(vault.withdraw(beneficiary, now, &beneficiary_auth), Err(VaultError::StillLocked));

    // Advance time past unlock, then withdraw as beneficiary
    let later = unlock_time + 1;
    let t = vault.withdraw(beneficiary, later, &beneficiary_auth).unwrap();
    assert_eq!(t, Transfer { from: custody, to: beneficiary, token, amount: 500 });
    custody_balance -= t.amount;
    beneficiary_balance += t.amount;
    assert_eq!(custody_balance, 0);
    assert_eq!(beneficiary_balance, 500);
    assert_eq!(vault.get_deposited_amount(), Ok(0));
}

#[test]
fn test_emergency_withdraw() {
    let owner = Identity { id: 1 };
    let beneficiary = Identity { id: 2 };
    let custody = Identity { id: 100 };
    let token = TokenId { id: 3 };

    let mut owner_balance: i128 = 1000;
    let mut custody_balance: i128 = 0;

    let mut vault = TimeLockedVault::new(custody);
    assert_eq!(vault.initialize(owner, beneficiary, 1000, token, 0), Ok(()));

    let mut owner_auth = AuthContext::new();
    owner_auth.endorse(owner);
    let t = vault.deposit(owner, 500, &owner_auth).unwrap();
    owner_balance -= t.amount;
    custody_balance += t.amount;
    assert_eq!(custody_balance, 500);
    assert_eq!(vault.get_deposited_amount(), Ok(500));

    // Emergency withdraw as owner (before unlock time)
    let t = vault.emergency_withdraw(owner, &owner_auth).unwrap();
    assert_eq!(t, Transfer { from: custody, to: owner, token, amount: 500 });
    custody_balance -= t.amount;
    owner_balance += t.amount;
    assert_eq!(custody_balance, 0);
    assert_eq!(owner_balance, 1000);
    assert_eq!(vault.get_deposited_amount(), Ok(0));
}

#[test]
fn test_withdraw_before_unlock() {
    let owner = Identity { id: 1 };
    let beneficiary = Identity { id: 2 };
    let token = TokenId { id: 3 };

    let mut vault = TimeLockedVault::new(Identity { id: 100 });
    assert_eq!(vault.initialize(owner, beneficiary, 1000, token, 0), Ok(()));

    let mut owner_auth = AuthContext::new();
    owner_auth.endorse(owner);
    assert!(vault.deposit(owner, 100, &owner_auth).is_ok());

    let mut beneficiary_auth = AuthContext::new();
    beneficiary_auth.endorse(beneficiary);
    assert_eq!(vault.withdraw(beneficiary, 0, &beneficiary_auth), Err(VaultError::StillLocked));
}

#[test]
fn test_unauthorized_deposit() {
    let owner = Identity { id: 1 };
    let beneficiary = Identity { id: 2 };
    let attacker = Identity { id: 7 };
    let token = TokenId { id: 3 };

    let mut vault = TimeLockedVault::new(Identity { id: 100 });
    assert_eq!(vault.initialize(owner, beneficiary, 1000, token, 0), Ok(()));

    let mut attacker_auth = AuthContext::new();
    attacker_auth.endorse(attacker);
    assert_eq!(vault.deposit(attacker, 100, &attacker_auth), Err(VaultError::Unauthorized));
    assert_eq!(vault.get_deposited_amount(), Ok(0));
}

#[test]
fn test_owner_equals_beneficiary() {
    let owner = Identity { id: 1 };
    let token = TokenId { id: 3 };

    let mut vault = TimeLockedVault::new(Identity { id: 100 });
    assert_eq!(
        vault.initialize(owner, owner, 1000, token, 0),
        Err(VaultError::InvalidConfiguration)
    );
    assert_eq!(vault.get_owner(), Err(VaultError::Uninitialized));
}
