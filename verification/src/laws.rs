//! The laws of the vault, stated once over the abstract state and proved.
//!
//! Each proof function here pins down one guarantee of the operations in
//! [`crate::vault`], over the same spec functions that the operations'
//! contracts use, so the guarantees hold of every run, not only of the
//! inputs a test happens to pick.

use vstd::prelude::*;
use crate::store::{Identity, TokenId};
use crate::vault::{Transfer, VaultError, VaultRecord, VaultState};

verus! {

/// A valid configuration is always accepted: whenever the owner differs
/// from the beneficiary and the unlock time lies strictly in the future,
/// `initialize` succeeds and the resulting state carries exactly the given
/// configuration with a zero balance.
pub proof fn lemma_initialize_accepts_valid(
    s: VaultState,
    owner: Identity,
    beneficiary: Identity,
    unlock_time: u64,
    token: TokenId,
    now: u64,
)
    requires
        owner != beneficiary,
        unlock_time > now,
    ensures
        VaultState::initialize_result(owner, beneficiary, unlock_time, now) is Ok,
        (s.initialize_post(owner, beneficiary, unlock_time, token, now).contents
            == Some(VaultRecord { owner, beneficiary, unlock_time, token, deposited: 0 })),
        s.initialize_post(owner, beneficiary, unlock_time, token, now).custody == s.custody,
{
}

/// Initialization with the owner equal to the beneficiary always fails
/// with `InvalidConfiguration`, whatever the other fields, and changes
/// nothing.
pub proof fn lemma_initialize_rejects_shared_role(
    s: VaultState,
    owner: Identity,
    unlock_time: u64,
    token: TokenId,
    now: u64,
)
    ensures
        VaultState::initialize_result(owner, owner, unlock_time, now)
            == Err::<(), VaultError>(VaultError::InvalidConfiguration),
        s.initialize_post(owner, owner, unlock_time, token, now) == s,
{
}

/// A deposit by anyone but the owner never succeeds and never changes the
/// state, whatever the amount and whatever the endorsements.
pub proof fn lemma_deposit_never_succeeds_for_non_owner(
    s: VaultState,
    caller: Identity,
    amount: i128,
    endorsed: Seq<Identity>,
)
    requires
        s.contents matches Some(rec) ==> caller != rec.owner,
    ensures
        s.deposit_result(caller, amount, endorsed) is Err,
        s.deposit_post(caller, amount, endorsed) == s,
{
}

/// With a positive amount and an endorsed caller, a deposit into an
/// initialized vault by anyone but the owner fails with exactly
/// `Unauthorized`, leaving the balance unchanged.
pub proof fn lemma_deposit_requires_owner(
    s: VaultState,
    caller: Identity,
    amount: i128,
    endorsed: Seq<Identity>,
)
    requires
        s.contents matches Some(rec) && caller != rec.owner,
        amount > 0,
        endorsed.contains(caller),
    ensures
        s.deposit_result(caller, amount, endorsed)
            == Err::<Transfer, VaultError>(VaultError::Unauthorized),
        s.deposit_post(caller, amount, endorsed) == s,
{
}

/// A deposit of a non-positive amount always fails with `InvalidAmount`,
/// whoever calls and whatever the state, and changes nothing.
pub proof fn lemma_deposit_rejects_nonpositive(
    s: VaultState,
    caller: Identity,
    amount: i128,
    endorsed: Seq<Identity>,
)
    requires
        amount <= 0,
    ensures
        s.deposit_result(caller, amount, endorsed)
            == Err::<Transfer, VaultError>(VaultError::InvalidAmount),
        s.deposit_post(caller, amount, endorsed) == s,
{
}

/// Before the unlock time, a withdrawal by the endorsed beneficiary fails
/// with exactly `StillLocked` and changes nothing.
pub proof fn lemma_withdraw_locked(
    s: VaultState,
    caller: Identity,
    now: u64,
    endorsed: Seq<Identity>,
)
    requires
        s.contents matches Some(rec) && caller == rec.beneficiary && now < rec.unlock_time,
        endorsed.contains(caller),
    ensures
        s.withdraw_result(caller, now, endorsed)
            == Err::<Transfer, VaultError>(VaultError::StillLocked),
        s.withdraw_post(caller, now, endorsed) == s,
{
}

/// From the unlock time on, a withdrawal by the endorsed beneficiary of a
/// funded vault succeeds, instructs the environment to move exactly the
/// full balance from custody to the beneficiary, and resets the balance to
/// zero with the configuration kept.
pub proof fn lemma_withdraw_unlocked_pays_beneficiary(
    s: VaultState,
    caller: Identity,
    now: u64,
    endorsed: Seq<Identity>,
)
    requires
        s.contents matches Some(rec) && caller == rec.beneficiary && now >= rec.unlock_time
            && rec.deposited != 0,
        endorsed.contains(caller),
    ensures
        (s.withdraw_result(caller, now, endorsed) == Ok::<Transfer, VaultError>(Transfer {
            from: s.custody,
            to: s.contents.unwrap().beneficiary,
            token: s.contents.unwrap().token,
            amount: s.contents.unwrap().deposited,
        })),
        s.withdraw_post(caller, now, endorsed) == s.drained(),
{
}

/// The emergency override ignores the clock: whatever the current time,
/// the endorsed owner of a funded vault can withdraw everything to
/// themselves, resetting the balance to zero with the configuration kept.
/// `emergency_withdraw_result` takes no time at all, so no unlock-time
/// hypothesis appears here.
pub proof fn lemma_emergency_withdraw_bypasses_lock(
    s: VaultState,
    caller: Identity,
    endorsed: Seq<Identity>,
)
    requires
        s.contents matches Some(rec) && caller == rec.owner && rec.deposited != 0,
        endorsed.contains(caller),
    ensures
        (s.emergency_withdraw_result(caller, endorsed) == Ok::<Transfer, VaultError>(Transfer {
            from: s.custody,
            to: s.contents.unwrap().owner,
            token: s.contents.unwrap().token,
            amount: s.contents.unwrap().deposited,
        })),
        s.emergency_withdraw_post(caller, endorsed) == s.drained(),
{
}

/// The emergency override is owner-only: in a valid initialized state the
/// endorsed beneficiary attempting it always fails with exactly
/// `Unauthorized` and changes nothing.
pub proof fn lemma_emergency_withdraw_rejects_beneficiary(
    s: VaultState,
    endorsed: Seq<Identity>,
)
    requires
        s.inv(),
        s.contents is Some,
        endorsed.contains(s.contents.unwrap().beneficiary),
    ensures
        s.emergency_withdraw_result(s.contents.unwrap().beneficiary, endorsed)
            == Err::<Transfer, VaultError>(VaultError::Unauthorized),
        s.emergency_withdraw_post(s.contents.unwrap().beneficiary, endorsed) == s,
{
}

/// With a zero balance, a withdrawal that passes every other gate fails
/// with exactly `NothingToWithdraw` and changes nothing.
pub proof fn lemma_withdraw_nothing(s: VaultState, now: u64, endorsed: Seq<Identity>)
    requires
        s.contents matches Some(rec) && rec.deposited == 0 && now >= rec.unlock_time,
        endorsed.contains(s.contents.unwrap().beneficiary),
    ensures
        s.withdraw_result(s.contents.unwrap().beneficiary, now, endorsed)
            == Err::<Transfer, VaultError>(VaultError::NothingToWithdraw),
        s.withdraw_post(s.contents.unwrap().beneficiary, now, endorsed) == s,
{
}

/// With a zero balance, an emergency withdrawal by the endorsed owner
/// fails with exactly `NothingToWithdraw` and changes nothing.
pub proof fn lemma_emergency_withdraw_nothing(s: VaultState, endorsed: Seq<Identity>)
    requires
        s.contents matches Some(rec) && rec.deposited == 0,
        endorsed.contains(s.contents.unwrap().owner),
    ensures
        s.emergency_withdraw_result(s.contents.unwrap().owner, endorsed)
            == Err::<Transfer, VaultError>(VaultError::NothingToWithdraw),
        s.emergency_withdraw_post(s.contents.unwrap().owner, endorsed) == s,
{
}

/// The vault is re-fundable: after any successful withdrawal the
/// configuration — owner, beneficiary, unlock time and token — survives
/// with a zero balance, and a fresh positive deposit by the endorsed owner
/// succeeds again. Whether the refilled vault is locked or unlocked is
/// decided, as always, by the current time against the original unlock
/// time.
pub proof fn lemma_refundable_after_withdraw(
    s: VaultState,
    caller: Identity,
    now: u64,
    endorsed: Seq<Identity>,
    depositor_endorsed: Seq<Identity>,
    amount: i128,
)
    requires
        s.withdraw_result(caller, now, endorsed) is Ok,
        amount > 0,
        depositor_endorsed.contains(s.contents.unwrap().owner),
    ensures
        s.withdraw_post(caller, now, endorsed).contents is Some,
        s.withdraw_post(caller, now, endorsed).contents.unwrap().deposited == 0,
        s.withdraw_post(caller, now, endorsed).contents.unwrap().owner
            == s.contents.unwrap().owner,
        s.withdraw_post(caller, now, endorsed).contents.unwrap().beneficiary
            == s.contents.unwrap().beneficiary,
        s.withdraw_post(caller, now, endorsed).contents.unwrap().unlock_time
            == s.contents.unwrap().unlock_time,
        s.withdraw_post(caller, now, endorsed).contents.unwrap().token
            == s.contents.unwrap().token,
        s.withdraw_post(caller, now, endorsed)
            .deposit_result(s.contents.unwrap().owner, amount, depositor_endorsed) is Ok,
{
}

/// The configuration is immutable once set: no deposit and no withdrawal
/// of either kind ever changes the custody address, the owner, the
/// beneficiary, the unlock time or the token of an initialized vault.
pub proof fn lemma_config_immutable(
    s: VaultState,
    caller: Identity,
    amount: i128,
    now: u64,
    endorsed: Seq<Identity>,
)
    requires
        s.contents is Some,
    ensures
        same_config(s.deposit_post(caller, amount, endorsed), s),
        same_config(s.withdraw_post(caller, now, endorsed), s),
        same_config(s.emergency_withdraw_post(caller, endorsed), s),
{
}

/// Two states hold the same configuration: both initialized, with equal
/// custody address, owner, beneficiary, unlock time and token.
pub open spec fn same_config(a: VaultState, b: VaultState) -> bool {
    &&& a.custody == b.custody
    &&& a.contents is Some
    &&& b.contents is Some
    &&& a.contents.unwrap().owner == b.contents.unwrap().owner
    &&& a.contents.unwrap().beneficiary == b.contents.unwrap().beneficiary
    &&& a.contents.unwrap().unlock_time == b.contents.unwrap().unlock_time
    &&& a.contents.unwrap().token == b.contents.unwrap().token
}

/// Rollback semantics: whenever an operation reports an error, of any
/// kind, its post-state equals its pre-state — no partial write is ever
/// observable.
pub proof fn lemma_errors_roll_back(
    s: VaultState,
    owner: Identity,
    beneficiary: Identity,
    unlock_time: u64,
    token: TokenId,
    caller: Identity,
    amount: i128,
    now: u64,
    endorsed: Seq<Identity>,
)
    ensures
        VaultState::initialize_result(owner, beneficiary, unlock_time, now) is Err
            ==> s.initialize_post(owner, beneficiary, unlock_time, token, now) == s,
        s.deposit_result(caller, amount, endorsed) is Err
            ==> s.deposit_post(caller, amount, endorsed) == s,
        s.withdraw_result(caller, now, endorsed) is Err
            ==> s.withdraw_post(caller, now, endorsed) == s,
        s.emergency_withdraw_result(caller, endorsed) is Err
            ==> s.emergency_withdraw_post(caller, endorsed) == s,
{
}

/// Validity survives every transition: from a valid state, the state after
/// any operation — successful or not — is valid again. In particular the
/// balance never turns negative and an initialized vault never acquires a
/// shared owner/beneficiary role.
pub proof fn lemma_transitions_preserve_validity(
    s: VaultState,
    owner: Identity,
    beneficiary: Identity,
    unlock_time: u64,
    token: TokenId,
    caller: Identity,
    amount: i128,
    now: u64,
    endorsed: Seq<Identity>,
)
    requires
        s.inv(),
        s.deposit_fits(amount),
    ensures
        s.initialize_post(owner, beneficiary, unlock_time, token, now).inv(),
        s.deposit_post(caller, amount, endorsed).inv(),
        s.withdraw_post(caller, now, endorsed).inv(),
        s.emergency_withdraw_post(caller, endorsed).inv(),
{
}

} // verus!

