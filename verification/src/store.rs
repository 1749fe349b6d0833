//! The durable vault state store: five logical keys, each independently
//! readable, written atomically by the operations in [`crate::vault`].

use vstd::prelude::*;

verus! {

/// A participant in the vault protocol. The core only ever compares
/// identities for equality; the hosting environment maps them to its own
/// account addresses.
#[derive(Clone, Copy, PartialEq, Eq, Structural, Debug)]
pub struct Identity {
    pub id: u64,
}

/// The asset type the vault custodies. Opaque to the core: it is read from
/// configuration and handed back in transfer instructions, never inspected.
#[derive(Clone, Copy, PartialEq, Eq, Structural, Debug)]
pub struct TokenId {
    pub id: u64,
}

/// The five logical keys of the durable vault record.
#[derive(Clone, Copy, PartialEq, Eq, Structural, Debug)]
pub enum DataKey {
    Owner,
    Beneficiary,
    UnlockTime,
    Token,
    DepositedAmount,
}

/// A value held under one key of the store.
#[derive(Clone, Copy, PartialEq, Eq, Structural, Debug)]
pub enum Value {
    Identity(Identity),
    Time(u64),
    Token(TokenId),
    Amount(i128),
}

/// One consistent snapshot of the persisted vault record. Every operation
/// reads from a snapshot like this and, on success, commits its updates;
/// the hosting environment guarantees the commit is all-or-nothing.
pub struct StateStore {
    owner: Option<Value>,
    beneficiary: Option<Value>,
    unlock_time: Option<Value>,
    token: Option<Value>,
    deposited_amount: Option<Value>,
}

impl StateStore {
    /// What the store holds under `key`, or `None` when nothing was ever
    /// written there.
    pub closed spec fn spec_get(self, key: DataKey) -> Option<Value> {
        match key {
            DataKey::Owner => self.owner,
            DataKey::Beneficiary => self.beneficiary,
            DataKey::UnlockTime => self.unlock_time,
            DataKey::Token => self.token,
            DataKey::DepositedAmount => self.deposited_amount,
        }
    }

    /// A fresh store with nothing recorded under any key.
    pub fn new() -> (r: StateStore)
        ensures
            forall|k: DataKey| r.spec_get(k) is None,
    {
        StateStore {
            owner: None,
            beneficiary: None,
            unlock_time: None,
            token: None,
            deposited_amount: None,
        }
    }

    /// Read the value under `key`.
    pub fn get(&self, key: DataKey) -> (r: Option<Value>)
        ensures
            r == self.spec_get(key),
    {
        match key {
            DataKey::Owner => self.owner,
            DataKey::Beneficiary => self.beneficiary,
            DataKey::UnlockTime => self.unlock_time,
            DataKey::Token => self.token,
            DataKey::DepositedAmount => self.deposited_amount,
        }
    }

    /// Write `value` under `key`, leaving every other key unchanged.
    pub fn set(&mut self, key: DataKey, value: Value)
        ensures
            final(self).spec_get(key) == Some(value),
            forall|k: DataKey| k != key ==> final(self).spec_get(k) == old(self).spec_get(k),
    {
        match key {
            DataKey::Owner => {
                self.owner = Some(value);
            }
            DataKey::Beneficiary => {
                self.beneficiary = Some(value);
            }
            DataKey::UnlockTime => {
                self.unlock_time = Some(value);
            }
            DataKey::Token => {
                self.token = Some(value);
            }
            DataKey::DepositedAmount => {
                self.deposited_amount = Some(value);
            }
        }
    }
}

} // verus!
