//! The vault operations: initialization, deposits, time-locked withdrawal
//! and the owner's emergency override.
//!
//! Every operation validates its caller and the business preconditions
//! against the current store snapshot and either commits its updates or
//! returns an error leaving the state untouched. Value movement itself is
//! delegated: a successful mutating operation returns the [`Transfer`] the
//! hosting environment must perform as part of the same atomic commit; if
//! the environment's transfer fails, the environment discards the updated
//! snapshot instead of committing it.

use vstd::prelude::*;
use crate::auth::AuthContext;
use crate::store::{DataKey, Identity, StateStore, TokenId, Value};

verus! {

/// Why an operation refused to run. Every failure leaves the vault state
/// exactly as it was.
#[derive(Clone, Copy, PartialEq, Eq, Structural, Debug)]
pub enum VaultError {
    /// `initialize` was given an owner equal to the beneficiary, or an
    /// unlock time not in the future.
    InvalidConfiguration,
    /// `deposit` was given a non-positive amount.
    InvalidAmount,
    /// The caller has not endorsed the current call.
    Unauthenticated,
    /// The caller is endorsed but lacks the role the operation demands.
    Unauthorized,
    /// `withdraw` was attempted before the unlock time.
    StillLocked,
    /// A withdrawal was attempted while the balance is zero.
    NothingToWithdraw,
    /// The vault has not been initialized yet.
    Uninitialized,
}

/// An instruction to the external asset-transfer service: move `amount` of
/// `token` from `from` to `to`. The environment performs it atomically with
/// the state commit of the operation that produced it.
#[derive(Clone, Copy, PartialEq, Eq, Structural, Debug)]
pub struct Transfer {
    pub from: Identity,
    pub to: Identity,
    pub token: TokenId,
    pub amount: i128,
}

/// The contents of an initialized vault: the write-once configuration and
/// the mutable deposited balance.
pub struct VaultRecord {
    pub owner: Identity,
    pub beneficiary: Identity,
    pub unlock_time: u64,
    pub token: TokenId,
    pub deposited: i128,
}

/// The abstract state of one vault instance: its custody address and, once
/// initialized, its record.
pub struct VaultState {
    pub custody: Identity,
    pub contents: Option<VaultRecord>,
}

impl VaultState {
    /// Validity of an abstract vault state: an initialized vault never has
    /// the owner equal to the beneficiary and never a negative balance.
    pub open spec fn inv(self) -> bool {
        match self.contents {
            Some(r) => r.owner != r.beneficiary && r.deposited >= 0,
            None => true,
        }
    }

    /// The outcome `initialize` reports: a shared owner/beneficiary role or
    /// an unlock time not strictly in the future is an invalid
    /// configuration; anything else is accepted.
    pub open spec fn initialize_result(
        owner: Identity,
        beneficiary: Identity,
        unlock_time: u64,
        now: u64,
    ) -> Result<(), VaultError> {
        if owner == beneficiary {
            Err(VaultError::InvalidConfiguration)
        } else if unlock_time <= now {
            Err(VaultError::InvalidConfiguration)
        } else {
            Ok(())
        }
    }

    /// The state after `initialize`: on success the configuration is
    /// written and the balance starts at zero; on failure nothing changes.
    pub open spec fn initialize_post(
        self,
        owner: Identity,
        beneficiary: Identity,
        unlock_time: u64,
        token: TokenId,
        now: u64,
    ) -> VaultState {
        if Self::initialize_result(owner, beneficiary, unlock_time, now) is Ok {
            VaultState {
                custody: self.custody,
                contents: Some(VaultRecord { owner, beneficiary, unlock_time, token, deposited: 0 }),
            }
        } else {
            self
        }
    }

    /// Whether crediting `amount` on top of the current balance stays
    /// representable.
    pub open spec fn deposit_fits(self, amount: i128) -> bool {
        match self.contents {
            Some(r) => r.deposited + amount <= i128::MAX,
            None => true,
        }
    }

    /// The outcome `deposit` reports, checked in this order: the amount
    /// must be positive, the caller must be endorsed, the vault must be
    /// initialized, and the caller must be the owner. On success the
    /// environment is told to move `amount` from the caller into custody.
    pub open spec fn deposit_result(
        self,
        caller: Identity,
        amount: i128,
        endorsed: Seq<Identity>,
    ) -> Result<Transfer, VaultError> {
        if amount <= 0 {
            Err(VaultError::InvalidAmount)
        } else if !endorsed.contains(caller) {
            Err(VaultError::Unauthenticated)
        } else if self.contents is None {
            Err(VaultError::Uninitialized)
        } else if caller != self.contents.unwrap().owner {
            Err(VaultError::Unauthorized)
        } else {
            Ok(Transfer { from: caller, to: self.custody, token: self.contents.unwrap().token, amount })
        }
    }

    /// The state after `deposit`: on success the balance grows by `amount`
    /// and nothing else changes; on failure nothing changes.
    pub open spec fn deposit_post(
        self,
        caller: Identity,
        amount: i128,
        endorsed: Seq<Identity>,
    ) -> VaultState {
        if self.deposit_result(caller, amount, endorsed) is Ok {
            let r = self.contents.unwrap();
            VaultState {
                custody: self.custody,
                contents: Some(VaultRecord {
                    owner: r.owner,
                    beneficiary: r.beneficiary,
                    unlock_time: r.unlock_time,
                    token: r.token,
                    deposited: (r.deposited + amount) as i128,
                }),
            }
        } else {
            self
        }
    }

    /// The state with the full balance paid out and everything else kept.
    pub open spec fn drained(self) -> VaultState {
        let r = self.contents.unwrap();
        VaultState {
            custody: self.custody,
            contents: Some(VaultRecord {
                owner: r.owner,
                beneficiary: r.beneficiary,
                unlock_time: r.unlock_time,
                token: r.token,
                deposited: 0,
            }),
        }
    }

    /// The outcome `withdraw` reports, checked in this order: the vault
    /// must be initialized, the caller must be endorsed, the caller must be
    /// the beneficiary, the unlock time must have been reached, and the
    /// balance must be non-zero. On success the environment is told to move
    /// the full balance from custody to the beneficiary.
    pub open spec fn withdraw_result(
        self,
        caller: Identity,
        now: u64,
        endorsed: Seq<Identity>,
    ) -> Result<Transfer, VaultError> {
        if self.contents is None {
            Err(VaultError::Uninitialized)
        } else if !endorsed.contains(caller) {
            Err(VaultError::Unauthenticated)
        } else if caller != self.contents.unwrap().beneficiary {
            Err(VaultError::Unauthorized)
        } else if now < self.contents.unwrap().unlock_time {
            Err(VaultError::StillLocked)
        } else if self.contents.unwrap().deposited == 0 {
            Err(VaultError::NothingToWithdraw)
        } else {
            Ok(Transfer {
                from: self.custody,
                to: self.contents.unwrap().beneficiary,
                token: self.contents.unwrap().token,
                amount: self.contents.unwrap().deposited,
            })
        }
    }

    /// The state after `withdraw`: on success the balance resets to zero
    /// and the configuration is kept; on failure nothing changes.
    pub open spec fn withdraw_post(
        self,
        caller: Identity,
        now: u64,
        endorsed: Seq<Identity>,
    ) -> VaultState {
        if self.withdraw_result(caller, now, endorsed) is Ok {
            self.drained()
        } else {
            self
        }
    }

    /// The outcome `emergency_withdraw` reports: as `withdraw`, but the
    /// required role is the owner, the payout goes to the owner, and there
    /// is deliberately no unlock-time check — this is the owner's designed
    /// bypass of the time lock.
    pub open spec fn emergency_withdraw_result(
        self,
        caller: Identity,
        endorsed: Seq<Identity>,
    ) -> Result<Transfer, VaultError> {
        if self.contents is None {
            Err(VaultError::Uninitialized)
        } else if !endorsed.contains(caller) {
            Err(VaultError::Unauthenticated)
        } else if caller != self.contents.unwrap().owner {
            Err(VaultError::Unauthorized)
        } else if self.contents.unwrap().deposited == 0 {
            Err(VaultError::NothingToWithdraw)
        } else {
            Ok(Transfer {
                from: self.custody,
                to: self.contents.unwrap().owner,
                token: self.contents.unwrap().token,
                amount: self.contents.unwrap().deposited,
            })
        }
    }

    /// The state after `emergency_withdraw`: on success the balance resets
    /// to zero and the configuration is kept; on failure nothing changes.
    pub open spec fn emergency_withdraw_post(
        self,
        caller: Identity,
        endorsed: Seq<Identity>,
    ) -> VaultState {
        if self.emergency_withdraw_result(caller, endorsed) is Ok {
            self.drained()
        } else {
            self
        }
    }
}

/// One time-locked vault instance: its custody address and its durable
/// state store.
pub struct TimeLockedVault {
    custody: Identity,
    store: StateStore,
}

spec fn value_identity(v: Value) -> Identity {
    match v {
        Value::Identity(a) => a,
        _ => Identity { id: 0 },
    }
}

spec fn value_time(v: Value) -> u64 {
    match v {
        Value::Time(t) => t,
        _ => 0,
    }
}

spec fn value_token(v: Value) -> TokenId {
    match v {
        Value::Token(t) => t,
        _ => TokenId { id: 0 },
    }
}

spec fn value_amount(v: Value) -> i128 {
    match v {
        Value::Amount(m) => m,
        _ => 0,
    }
}

impl View for TimeLockedVault {
    type V = VaultState;

    closed spec fn view(&self) -> VaultState {
        VaultState {
            custody: self.custody,
            contents: if self.store_initialized() {
                Some(self.spec_record())
            } else {
                None
            },
        }
    }
}

impl TimeLockedVault {
    /// Every key of an initialized vault holds a value of its proper shape.
    closed spec fn store_initialized(self) -> bool {
        &&& self.store.spec_get(DataKey::Owner) matches Some(Value::Identity(_))
        &&& self.store.spec_get(DataKey::Beneficiary) matches Some(Value::Identity(_))
        &&& self.store.spec_get(DataKey::UnlockTime) matches Some(Value::Time(_))
        &&& self.store.spec_get(DataKey::Token) matches Some(Value::Token(_))
        &&& self.store.spec_get(DataKey::DepositedAmount) matches Some(Value::Amount(_))
    }

    closed spec fn store_empty(self) -> bool {
        forall|k: DataKey| self.store.spec_get(k) is None
    }

    closed spec fn spec_record(self) -> VaultRecord {
        VaultRecord {
            owner: value_identity(self.store.spec_get(DataKey::Owner).unwrap()),
            beneficiary: value_identity(self.store.spec_get(DataKey::Beneficiary).unwrap()),
            unlock_time: value_time(self.store.spec_get(DataKey::UnlockTime).unwrap()),
            token: value_token(self.store.spec_get(DataKey::Token).unwrap()),
            deposited: value_amount(self.store.spec_get(DataKey::DepositedAmount).unwrap()),
        }
    }

    /// Well-formedness: the store is either fully written (one atomic
    /// `initialize` commit) or untouched, and the abstract state it
    /// denotes is valid. Constructors establish this and every operation
    /// preserves it.
    pub closed spec fn wf(self) -> bool {
        &&& self.store_initialized() || self.store_empty()
        &&& self@.inv()
    }

    /// A fresh, uninitialized vault instance whose custody address is
    /// `custody`.
    pub fn new(custody: Identity) -> (r: TimeLockedVault)
        ensures
            r.wf(),
            r@.custody == custody,
            r@.contents is None,
    {
        TimeLockedVault { custody, store: StateStore::new() }
    }

    /// Rebuild the in-memory snapshot of an already-initialized vault from
    /// the five persisted values, as the hosting environment reads them
    /// back from durable storage.
    pub fn restore(
        custody: Identity,
        owner: Identity,
        beneficiary: Identity,
        unlock_time: u64,
        token: TokenId,
        deposited: i128,
    ) -> (r: TimeLockedVault)
        requires
            owner != beneficiary,
            deposited >= 0,
        ensures
            r.wf(),
            r@.custody == custody,
            (r@.contents == Some(VaultRecord { owner, beneficiary, unlock_time, token, deposited })),
    {
        let mut store = StateStore::new();
        store.set(DataKey::Owner, Value::Identity(owner));
        store.set(DataKey::Beneficiary, Value::Identity(beneficiary));
        store.set(DataKey::UnlockTime, Value::Time(unlock_time));
        store.set(DataKey::Token, Value::Token(token));
        store.set(DataKey::DepositedAmount, Value::Amount(deposited));
        TimeLockedVault { custody, store }
    }

    /// The vault's own custody address, fixed at construction.
    pub fn custody(&self) -> (r: Identity)
        ensures
            r == self@.custody,
    {
        self.custody
    }

    /// Configure the vault: record owner, beneficiary, unlock time and
    /// token, and start the balance at zero. Rejects a configuration whose
    /// owner equals its beneficiary or whose unlock time is not strictly
    /// after `current_time`. This core does not guard against
    /// re-initialization; whether a second call may ever happen is the
    /// hosting environment's concern.
    pub fn initialize(
        &mut self,
        owner: Identity,
        beneficiary: Identity,
        unlock_time: u64,
        token: TokenId,
        current_time: u64,
    ) -> (r: Result<(), VaultError>)
        requires
            old(self).wf(),
        ensures
            final(self).wf(),
            r == VaultState::initialize_result(owner, beneficiary, unlock_time, current_time),
            final(self)@ == old(self)@.initialize_post(owner, beneficiary, unlock_time, token, current_time),
    {
        if owner == beneficiary {
            return Err(VaultError::InvalidConfiguration);
        }
        if unlock_time <= current_time {
            return Err(VaultError::InvalidConfiguration);
        }
        self.store.set(DataKey::Owner, Value::Identity(owner));
        self.store.set(DataKey::Beneficiary, Value::Identity(beneficiary));
        self.store.set(DataKey::UnlockTime, Value::Time(unlock_time));
        self.store.set(DataKey::Token, Value::Token(token));
        self.store.set(DataKey::DepositedAmount, Value::Amount(0i128));
        Ok(())
    }

    /// Credit `amount` to the vault: only the owner may deposit, the
    /// amount must be positive, and on success the environment must move
    /// `amount` of the configured token from the caller into custody.
    pub fn deposit(
        &mut self,
        caller: Identity,
        amount: i128,
        auth: &AuthContext,
    ) -> (r: Result<Transfer, VaultError>)
        requires
            old(self).wf(),
            old(self)@.deposit_fits(amount),
        ensures
            final(self).wf(),
            r == old(self)@.deposit_result(caller, amount, auth@),
            final(self)@ == old(self)@.deposit_post(caller, amount, auth@),
    {
        if amount <= 0 {
            return Err(VaultError::InvalidAmount);
        }
        if !auth.is_endorsed(caller) {
            return Err(VaultError::Unauthenticated);
        }
        let owner: Identity = match self.store.get(DataKey::Owner) {
            Some(Value::Identity(a)) => a,
            _ => {
                return Err(VaultError::Uninitialized);
            },
        };
        if caller != owner {
            return Err(VaultError::Unauthorized);
        }
        let token: TokenId = match self.store.get(DataKey::Token) {
            Some(Value::Token(t)) => t,
            _ => {
                return Err(VaultError::Uninitialized);
            },
        };
        let current: i128 = match self.store.get(DataKey::DepositedAmount) {
            Some(Value::Amount(m)) => m,
            _ => {
                return Err(VaultError::Uninitialized);
            },
        };
        let updated: i128 = current + amount;
        self.store.set(DataKey::DepositedAmount, Value::Amount(updated));
        Ok(Transfer { from: caller, to: self.custody, token, amount })
    }

    /// Pay the full balance out to the beneficiary: only the beneficiary
    /// may withdraw, only once `current_time` has reached the unlock time,
    /// and only while the balance is non-zero. On success the environment
    /// must move the full balance from custody to the beneficiary.
    pub fn withdraw(
        &mut self,
        caller: Identity,
        current_time: u64,
        auth: &AuthContext,
    ) -> (r: Result<Transfer, VaultError>)
        requires
            old(self).wf(),
        ensures
            final(self).wf(),
            r == old(self)@.withdraw_result(caller, current_time, auth@),
            final(self)@ == old(self)@.withdraw_post(caller, current_time, auth@),
    {
        let beneficiary: Identity = match self.store.get(DataKey::Beneficiary) {
            Some(Value::Identity(b)) => b,
            _ => {
                return Err(VaultError::Uninitialized);
            },
        };
        if !auth.is_endorsed(caller) {
            return Err(VaultError::Unauthenticated);
        }
        if caller != beneficiary {
            return Err(VaultError::Unauthorized);
        }
        let unlock_time: u64 = match self.store.get(DataKey::UnlockTime) {
            Some(Value::Time(t)) => t,
            _ => {
                return Err(VaultError::Uninitialized);
            },
        };
        if current_time < unlock_time {
            return Err(VaultError::StillLocked);
        }
        let token: TokenId = match self.store.get(DataKey::Token) {
            Some(Value::Token(t)) => t,
            _ => {
                return Err(VaultError::Uninitialized);
            },
        };
        let amount: i128 = match self.store.get(DataKey::DepositedAmount) {
            Some(Value::Amount(m)) => m,
            _ => {
                return Err(VaultError::Uninitialized);
            },
        };
        if amount == 0 {
            return Err(VaultError::NothingToWithdraw);
        }
        self.store.set(DataKey::DepositedAmount, Value::Amount(0i128));
        Ok(Transfer { from: self.custody, to: beneficiary, token, amount })
    }

    /// Pay the full balance out to the owner, bypassing the time lock:
    /// only the owner may invoke this, and only while the balance is
    /// non-zero. The owner-only gate is the sole safeguard of this
    /// override. On success the environment must move the full balance
    /// from custody to the owner.
    pub fn emergency_withdraw(
        &mut self,
        caller: Identity,
        auth: &AuthContext,
    ) -> (r: Result<Transfer, VaultError>)
        requires
            old(self).wf(),
        ensures
            final(self).wf(),
            r == old(self)@.emergency_withdraw_result(caller, auth@),
            final(self)@ == old(self)@.emergency_withdraw_post(caller, auth@),
    {
        let owner: Identity = match self.store.get(DataKey::Owner) {
            Some(Value::Identity(a)) => a,
            _ => {
                return Err(VaultError::Uninitialized);
            },
        };
        if !auth.is_endorsed(caller) {
            return Err(VaultError::Unauthenticated);
        }
        if caller != owner {
            return Err(VaultError::Unauthorized);
        }
        let token: TokenId = match self.store.get(DataKey::Token) {
            Some(Value::Token(t)) => t,
            _ => {
                return Err(VaultError::Uninitialized);
            },
        };
        let amount: i128 = match self.store.get(DataKey::DepositedAmount) {
            Some(Value::Amount(m)) => m,
            _ => {
                return Err(VaultError::Uninitialized);
            },
        };
        if amount == 0 {
            return Err(VaultError::NothingToWithdraw);
        }
        self.store.set(DataKey::DepositedAmount, Value::Amount(0i128));
        Ok(Transfer { from: self.custody, to: owner, token, amount })
    }

    /// The configured owner.
    pub fn get_owner(&self) -> (r: Result<Identity, VaultError>)
        requires
            self.wf(),
        ensures
            (r == match self@.contents {
                Some(rec) => Ok::<Identity, VaultError>(rec.owner),
                None => Err::<Identity, VaultError>(VaultError::Uninitialized),
            }),
    {
        match self.store.get(DataKey::Owner) {
            Some(Value::Identity(a)) => Ok(a),
            _ => Err(VaultError::Uninitialized),
        }
    }

    /// The configured beneficiary.
    pub fn get_beneficiary(&self) -> (r: Result<Identity, VaultError>)
        requires
            self.wf(),
        ensures
            (r == match self@.contents {
                Some(rec) => Ok::<Identity, VaultError>(rec.beneficiary),
                None => Err::<Identity, VaultError>(VaultError::Uninitialized),
            }),
    {
        match self.store.get(DataKey::Beneficiary) {
            Some(Value::Identity(b)) => Ok(b),
            _ => Err(VaultError::Uninitialized),
        }
    }

    /// The configured unlock time.
    pub fn get_unlock_time(&self) -> (r: Result<u64, VaultError>)
        requires
            self.wf(),
        ensures
            (r == match self@.contents {
                Some(rec) => Ok::<u64, VaultError>(rec.unlock_time),
                None => Err::<u64, VaultError>(VaultError::Uninitialized),
            }),
    {
        match self.store.get(DataKey::UnlockTime) {
            Some(Value::Time(t)) => Ok(t),
            _ => Err(VaultError::Uninitialized),
        }
    }

    /// The configured token.
    pub fn get_token(&self) -> (r: Result<TokenId, VaultError>)
        requires
            self.wf(),
        ensures
            (r == match self@.contents {
                Some(rec) => Ok::<TokenId, VaultError>(rec.token),
                None => Err::<TokenId, VaultError>(VaultError::Uninitialized),
            }),
    {
        match self.store.get(DataKey::Token) {
            Some(Value::Token(t)) => Ok(t),
            _ => Err(VaultError::Uninitialized),
        }
    }

    /// The balance currently custodied.
    pub fn get_deposited_amount(&self) -> (r: Result<i128, VaultError>)
        requires
            self.wf(),
        ensures
            (r == match self@.contents {
                Some(rec) => Ok::<i128, VaultError>(rec.deposited),
                None => Err::<i128, VaultError>(VaultError::Uninitialized),
            }),
    {
        match self.store.get(DataKey::DepositedAmount) {
            Some(Value::Amount(m)) => Ok(m),
            _ => Err(VaultError::Uninitialized),
        }
    }
}

} // verus!
