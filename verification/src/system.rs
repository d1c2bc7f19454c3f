//! The whole-ledger view: one configuration, one vault, and every deposit.
//!
//! `EscrowSystem` plays the role of the host's key-value store for this
//! program's records, with deposits addressed by their (depositor, content
//! identifier) pair. Its invariant `inv` is what holds of every reachable
//! state: the vault never records more claimed than deposited, every deposit
//! is well-formed, the keys are unique, and the sum of the deposits'
//! outstanding obligations never exceeds the vault's — the coupling that
//! makes every claim's vault-side bookkeeping safe.

use vstd::prelude::*;
use crate::errors::StorachaError;
use crate::ops;
use crate::ops::{create_checks, extend_checks};
use crate::types::{
    AccountId, Config, Deposit, DepositCreated, EscrowVault, FeesWithdrawn, MinDurationUpdated,
    RateUpdated, RewardsClaimed, StorageDurationExtended,
};
use crate::vesting::{spec_actual_claim, spec_after_claim};

verus! {

/// Whether deposit `d` is the record addressed by depositor `user` and
/// content identifier `cid`.
pub open spec fn key_matches(d: Deposit, user: AccountId, cid: Seq<char>) -> bool {
    d.deposit_key == user && d.content_cid@ == cid
}

/// The sum of the deposits' outstanding obligations (committed but not yet
/// claimed currency).
pub open spec fn outstanding_sum(s: Seq<Deposit>) -> int
    decreases s.len(),
{
    if s.len() == 0 {
        0
    } else {
        s[0].outstanding() + outstanding_sum(s.drop_first())
    }
}

proof fn lemma_outstanding_sum_push(s: Seq<Deposit>, d: Deposit)
    ensures
        outstanding_sum(s.push(d)) == outstanding_sum(s) + d.outstanding(),
    decreases s.len(),
{
    if s.len() == 0 {
        assert(s.push(d)[0] == d);
        assert(s.push(d).drop_first() =~= Seq::<Deposit>::empty());
        assert(outstanding_sum(Seq::<Deposit>::empty()) == 0);
    } else {
        assert(s.push(d)[0] == s[0]);
        assert(s.push(d).drop_first() =~= s.drop_first().push(d));
        lemma_outstanding_sum_push(s.drop_first(), d);
    }
}

proof fn lemma_outstanding_sum_update(s: Seq<Deposit>, i: int, d: Deposit)
    requires
        0 <= i < s.len(),
    ensures
        outstanding_sum(s.update(i, d)) == outstanding_sum(s) - s[i].outstanding()
            + d.outstanding(),
    decreases s.len(),
{
    if i == 0 {
        assert(s.update(0, d)[0] == d);
        assert(s.update(0, d).drop_first() =~= s.drop_first());
    } else {
        assert(s.update(i, d)[0] == s[0]);
        assert(s.update(i, d).drop_first() =~= s.drop_first().update(i - 1, d));
        lemma_outstanding_sum_update(s.drop_first(), i - 1, d);
        assert(s.drop_first()[i - 1] == s[i]);
    }
}

proof fn lemma_outstanding_sum_nonneg(s: Seq<Deposit>)
    requires
        forall|j: int| 0 <= j < s.len() ==> (#[trigger] s[j]).outstanding() >= 0,
    ensures
        outstanding_sum(s) >= 0,
    decreases s.len(),
{
    if s.len() > 0 {
        lemma_outstanding_sum_nonneg(s.drop_first());
    }
}

proof fn lemma_outstanding_sum_element(s: Seq<Deposit>, i: int)
    requires
        0 <= i < s.len(),
        forall|j: int| 0 <= j < s.len() ==> (#[trigger] s[j]).outstanding() >= 0,
    ensures
        s[i].outstanding() <= outstanding_sum(s),
    decreases s.len(),
{
    if i == 0 {
        lemma_outstanding_sum_nonneg(s.drop_first());
    } else {
        lemma_outstanding_sum_element(s.drop_first(), i - 1);
    }
}

/// The escrow ledger as a whole: the two singletons and every deposit
/// record.
pub struct EscrowSystem {
    /// The singleton pricing/authorization configuration.
    pub config: Config,
    /// The singleton pooled-funds ledger.
    pub vault: EscrowVault,
    /// Every deposit record, uniquely keyed by (depositor, content
    /// identifier).
    pub deposits: Vec<Deposit>,
}

impl EscrowSystem {
    /// The invariant of every reachable ledger state: the vault never
    /// records more claimed than deposited; every deposit is well-formed (in
    /// particular claims never exceed its committed amount); deposit keys are
    /// unique; and the deposits' outstanding obligations, in sum, never
    /// exceed the vault's.
    pub open spec fn inv(self) -> bool {
        &&& self.vault.wf()
        &&& forall|i: int| 0 <= i < self.deposits@.len() ==> (#[trigger] self.deposits@[i]).wf()
        &&& outstanding_sum(self.deposits@) <= self.vault.outstanding()
        &&& forall|i: int, j: int|
            #![trigger self.deposits@[i], self.deposits@[j]]
            0 <= i < j < self.deposits@.len() ==> !key_matches(
                self.deposits@[j],
                self.deposits@[i].deposit_key,
                self.deposits@[i].content_cid@,
            )
    }

    /// Whether a deposit addressed by (`user`, `cid`) exists.
    pub open spec fn spec_has_deposit(self, user: AccountId, cid: Seq<char>) -> bool {
        exists|i: int|
            0 <= i < self.deposits@.len() && key_matches(#[trigger] self.deposits@[i], user, cid)
    }

    /// The index of the deposit addressed by (`user`, `cid`) — the unique
    /// one, when `inv` holds and some deposit matches.
    pub open spec fn spec_deposit_index(self, user: AccountId, cid: Seq<char>) -> int {
        choose|i: int|
            0 <= i < self.deposits@.len() && key_matches(#[trigger] self.deposits@[i], user, cid)
    }

    /// Creates the ledger: the configured singletons and no deposits. The
    /// host must do this exactly once.
    pub fn initialize(
        admin_key: AccountId,
        rate_per_byte_per_day: u64,
        min_duration_days: u32,
        withdrawal_wallet: AccountId,
    ) -> (s: Self)
        ensures
            s.inv(),
            s.config == (Config {
                admin_key,
                rate_per_byte_per_day,
                min_duration_days,
                withdrawal_wallet,
            }),
            s.vault == (EscrowVault { total_deposits: 0, total_claimed: 0 }),
            s.deposits@.len() == 0,
    {
        let (config, vault) = ops::initialize_config(
            admin_key,
            rate_per_byte_per_day,
            min_duration_days,
            withdrawal_wallet,
        );
        EscrowSystem { config, vault, deposits: Vec::new() }
    }

    /// Looks a deposit up by its (depositor, content identifier) key.
    pub fn find_deposit(&self, user: AccountId, content_cid: &String) -> (r: Option<usize>)
        ensures
            match r {
                Some(i) => i < self.deposits@.len() && key_matches(
                    self.deposits@[i as int],
                    user,
                    content_cid@,
                ),
                None => !self.spec_has_deposit(user, content_cid@),
            },
    {
        let mut i: usize = 0;
        while i < self.deposits.len()
            invariant
                i <= self.deposits@.len(),
                forall|k: int|
                    0 <= k < i ==> !key_matches(#[trigger] self.deposits@[k], user, content_cid@),
            decreases self.deposits@.len() - i,
        {
            if self.deposits[i].deposit_key == user && self.deposits[i].content_cid
                == *content_cid {
                return Some(i);
            }
            i = i + 1;
        }
        None
    }

    /// Whether a deposit addressed by (`user`, `content_cid`) exists. The
    /// host resolves addresses before an operation runs; a caller of
    /// `create_deposit`, `extend_storage_duration` or `claim_rewards` checks
    /// here first, as the host's account resolution does.
    pub fn has_deposit(&self, user: AccountId, content_cid: &String) -> (r: bool)
        ensures
            r == self.spec_has_deposit(user, content_cid@),
    {
        match self.find_deposit(user, content_cid) {
            Some(_) => true,
            None => false,
        }
    }

    /// Creates a deposit for a storage order (see `ops::create_deposit`).
    /// The key must be fresh: the host's deterministic addressing refuses to
    /// allocate the same (depositor, content identifier) slot twice.
    pub fn create_deposit(
        &mut self,
        user: AccountId,
        content_cid: String,
        file_size: u64,
        duration_days: u32,
        deposit_amount: u64,
        now: u64,
    ) -> (r: Result<DepositCreated, StorachaError>)
        requires
            old(self).inv(),
            duration_days > 0,
            !old(self).spec_has_deposit(user, content_cid@),
        ensures
            final(self).inv(),
            final(self).config == old(self).config,
            match r {
                Ok(ev) => {
                    &&& create_checks(
                        old(self).config,
                        content_cid@,
                        file_size,
                        duration_days,
                        deposit_amount,
                        old(self).vault.total_deposits,
                    ) is None
                    &&& final(self).deposits@ == old(self).deposits@.push(
                        Deposit {
                            deposit_key: user,
                            content_cid: content_cid,
                            file_size,
                            duration_days,
                            deposit_amount,
                            deposit_slot: now,
                            last_claimed_slot: now,
                            total_claimed: 0,
                        },
                    )
                    &&& final(self).vault == (EscrowVault {
                        total_deposits: (old(self).vault.total_deposits + deposit_amount) as u64,
                        total_claimed: old(self).vault.total_claimed,
                    })
                    &&& ev == (DepositCreated {
                        user,
                        content_cid: content_cid,
                        file_size,
                        duration_days,
                        deposit_amount,
                        slot: now,
                    })
                },
                Err(e) => {
                    &&& Some(e) == create_checks(
                        old(self).config,
                        content_cid@,
                        file_size,
                        duration_days,
                        deposit_amount,
                        old(self).vault.total_deposits,
                    )
                    &&& final(self).vault == old(self).vault
                    &&& final(self).deposits@ == old(self).deposits@
                },
            },
    {
        let ghost pre = self.deposits@;
        match ops::create_deposit(
            &self.config,
            &mut self.vault,
            user,
            content_cid,
            file_size,
            duration_days,
            deposit_amount,
            now,
        ) {
            Ok(out) => {
                let (deposit, event) = out;
                proof {
                    lemma_outstanding_sum_push(pre, deposit);
                }
                self.deposits.push(deposit);
                Ok(event)
            },
            Err(e) => Err(e),
        }
    }

    /// Extends the deposit addressed by (`user`, `content_cid`) (see
    /// `ops::extend_storage_duration`).
    pub fn extend_storage_duration(
        &mut self,
        user: AccountId,
        content_cid: String,
        duration: u32,
        storage_extension_cost: u64,
        now: u64,
    ) -> (r: Result<StorageDurationExtended, StorachaError>)
        requires
            old(self).inv(),
            old(self).spec_has_deposit(user, content_cid@),
        ensures
            final(self).inv(),
            final(self).config == old(self).config,
            ({
                let i = old(self).spec_deposit_index(user, content_cid@);
                match r {
                    Ok(ev) => {
                        &&& extend_checks(
                            old(self).config,
                            old(self).deposits@[i],
                            user,
                            content_cid@,
                            duration,
                            storage_extension_cost,
                            old(self).vault.total_deposits,
                        ) is None
                        &&& final(self).deposits@ == old(self).deposits@.update(
                            i,
                            Deposit {
                                duration_days: (old(self).deposits@[i].duration_days
                                    + duration) as u32,
                                deposit_amount: (old(self).deposits@[i].deposit_amount
                                    + storage_extension_cost) as u64,
                                ..old(self).deposits@[i]
                            },
                        )
                        &&& final(self).vault == (EscrowVault {
                            total_deposits: (old(self).vault.total_deposits
                                + storage_extension_cost) as u64,
                            total_claimed: old(self).vault.total_claimed,
                        })
                        &&& ev == (StorageDurationExtended {
                            user,
                            content_cid: content_cid,
                            duration,
                            new_cost: storage_extension_cost,
                            extended_duration: final(self).deposits@[i].duration_days,
                            total_amount: final(self).deposits@[i].deposit_amount,
                            slot: now,
                        })
                    },
                    Err(e) => {
                        &&& Some(e) == extend_checks(
                            old(self).config,
                            old(self).deposits@[i],
                            user,
                            content_cid@,
                            duration,
                            storage_extension_cost,
                            old(self).vault.total_deposits,
                        )
                        &&& final(self).vault == old(self).vault
                        &&& final(self).deposits@ == old(self).deposits@
                    },
                }
            }),
    {
        let idx = match self.find_deposit(user, &content_cid) {
            Some(i) => i,
            None => {
                proof {
                    assert(false);
                }
                return Err(StorachaError::UnauthorizedUser);
            },
        };
        proof {
            let i = old(self).spec_deposit_index(user, content_cid@);
            assert(0 <= i < self.deposits@.len() && key_matches(
                self.deposits@[i],
                user,
                content_cid@,
            ));
            if i < idx as int {
                assert(!key_matches(
                    self.deposits@[idx as int],
                    self.deposits@[i].deposit_key,
                    self.deposits@[i].content_cid@,
                ));
            }
            if (idx as int) < i {
                assert(!key_matches(
                    self.deposits@[i],
                    self.deposits@[idx as int].deposit_key,
                    self.deposits@[idx as int].content_cid@,
                ));
            }
            assert(idx as int == i);
        }
        let ghost pre = self.deposits@;
        let r = ops::extend_storage_duration(
            &self.config,
            &mut self.vault,
            &mut self.deposits[idx],
            user,
            content_cid,
            duration,
            storage_extension_cost,
            now,
        );
        proof {
            lemma_outstanding_sum_update(pre, idx as int, self.deposits@[idx as int]);
            if r is Err {
                assert(self.deposits@ =~= pre);
            }
        }
        r
    }

    /// Claims the vested-but-unclaimed part of the deposit addressed by
    /// (`user`, `content_cid`) for a service provider (see
    /// `ops::claim_rewards`).
    pub fn claim_rewards(
        &mut self,
        user: AccountId,
        content_cid: &String,
        service_provider: AccountId,
        now: u64,
    ) -> (r: Result<(u64, RewardsClaimed), StorachaError>)
        requires
            old(self).inv(),
            old(self).spec_has_deposit(user, content_cid@),
        ensures
            final(self).inv(),
            final(self).config == old(self).config,
            final(self).vault.total_deposits == old(self).vault.total_deposits,
            ({
                let i = old(self).spec_deposit_index(user, content_cid@);
                match r {
                    Ok(out) => {
                        &&& out.0 == spec_actual_claim(old(self).deposits@[i], now)
                        &&& out.0 > 0
                        &&& final(self).deposits@ == old(self).deposits@.update(
                            i,
                            spec_after_claim(old(self).deposits@[i], now),
                        )
                        &&& final(self).vault == (EscrowVault {
                            total_deposits: old(self).vault.total_deposits,
                            total_claimed: (old(self).vault.total_claimed + out.0) as u64,
                        })
                        &&& out.1 == (RewardsClaimed {
                            deposit_key: old(self).deposits@[i].deposit_key,
                            service_provider,
                            amount: out.0,
                            slot: now,
                        })
                    },
                    Err(e) => {
                        &&& e == StorachaError::NothingToClaim
                        &&& spec_actual_claim(old(self).deposits@[i], now) == 0
                        &&& final(self).vault == old(self).vault
                        &&& final(self).deposits@ == old(self).deposits@
                    },
                }
            }),
    {
        let idx = match self.find_deposit(user, content_cid) {
            Some(i) => i,
            None => {
                proof {
                    assert(false);
                }
                return Err(StorachaError::NothingToClaim);
            },
        };
        proof {
            let i = old(self).spec_deposit_index(user, content_cid@);
            assert(0 <= i < self.deposits@.len() && key_matches(
                self.deposits@[i],
                user,
                content_cid@,
            ));
            if i < idx as int {
                assert(!key_matches(
                    self.deposits@[idx as int],
                    self.deposits@[i].deposit_key,
                    self.deposits@[i].content_cid@,
                ));
            }
            if (idx as int) < i {
                assert(!key_matches(
                    self.deposits@[i],
                    self.deposits@[idx as int].deposit_key,
                    self.deposits@[idx as int].content_cid@,
                ));
            }
            assert(idx as int == i);
            lemma_outstanding_sum_element(self.deposits@, idx as int);
        }
        let ghost pre = self.deposits@;
        let r = ops::claim_rewards(&mut self.vault, &mut self.deposits[idx], service_provider, now);
        proof {
            lemma_outstanding_sum_update(pre, idx as int, self.deposits@[idx as int]);
            if r is Err {
                assert(self.deposits@ =~= pre);
            }
        }
        r
    }

    /// Decides an admin fee sweep against this ledger's configuration (see
    /// `ops::withdraw_fees`). The ledger records are untouched: by design a
    /// sweep draws on the vault's real balance only.
    pub fn withdraw_fees(
        &self,
        escrow_balance: u64,
        admin: AccountId,
        withdrawal_wallet: AccountId,
        amount: u64,
        now: u64,
    ) -> (r: Result<FeesWithdrawn, StorachaError>)
        ensures
            admin != self.config.admin_key ==> r == Err::<FeesWithdrawn, StorachaError>(
                StorachaError::UnauthorizedAdmin,
            ),
            match r {
                Ok(ev) => {
                    &&& admin == self.config.admin_key
                    &&& withdrawal_wallet == self.config.withdrawal_wallet
                    &&& escrow_balance >= amount
                    &&& ev == (FeesWithdrawn { admin, amount, slot: now })
                },
                Err(e) => {
                    &&& e == (if admin != self.config.admin_key {
                        StorachaError::UnauthorizedAdmin
                    } else if withdrawal_wallet != self.config.withdrawal_wallet {
                        StorachaError::InvalidWithdrawalWallet
                    } else {
                        StorachaError::InsufficientEscrowFunds
                    })
                    &&& (admin != self.config.admin_key || withdrawal_wallet
                        != self.config.withdrawal_wallet || escrow_balance < amount)
                },
            },
    {
        ops::withdraw_fees(&self.config, escrow_balance, admin, withdrawal_wallet, amount, now)
    }

    /// Updates the price rate, admin-gated (see `ops::update_rate`). The
    /// vault and the deposits are untouched, so the ledger invariant is
    /// preserved.
    pub fn update_rate(&mut self, admin: AccountId, new_rate: u64) -> (r: Result<
        RateUpdated,
        StorachaError,
    >)
        requires
            old(self).inv(),
        ensures
            final(self).inv(),
            final(self).vault == old(self).vault,
            final(self).deposits@ == old(self).deposits@,
            admin != old(self).config.admin_key ==> r == Err::<RateUpdated, StorachaError>(
                StorachaError::UnauthorizedAdmin,
            ),
            match r {
                Ok(ev) => {
                    &&& admin == old(self).config.admin_key
                    &&& final(self).config == (Config {
                        rate_per_byte_per_day: new_rate,
                        ..old(self).config
                    })
                    &&& ev == (RateUpdated {
                        old_rate: old(self).config.rate_per_byte_per_day,
                        new_rate,
                    })
                },
                Err(e) => {
                    &&& e == StorachaError::UnauthorizedAdmin
                    &&& admin != old(self).config.admin_key
                    &&& final(self).config == old(self).config
                },
            },
    {
        ops::update_rate(&mut self.config, admin, new_rate)
    }

    /// Updates the minimum storage duration, admin-gated (see
    /// `ops::update_min_duration`). The vault and the deposits are
    /// untouched, so the ledger invariant is preserved.
    pub fn update_min_duration(&mut self, admin: AccountId, new_min_duration: u32) -> (r: Result<
        MinDurationUpdated,
        StorachaError,
    >)
        requires
            old(self).inv(),
        ensures
            final(self).inv(),
            final(self).vault == old(self).vault,
            final(self).deposits@ == old(self).deposits@,
            admin != old(self).config.admin_key ==> r == Err::<MinDurationUpdated, StorachaError>(
                StorachaError::UnauthorizedAdmin,
            ),
            match r {
                Ok(ev) => {
                    &&& admin == old(self).config.admin_key
                    &&& final(self).config == (Config {
                        min_duration_days: new_min_duration,
                        ..old(self).config
                    })
                    &&& ev == (MinDurationUpdated {
                        old_duration: old(self).config.min_duration_days,
                        new_duration: new_min_duration,
                    })
                },
                Err(e) => {
                    &&& e == StorachaError::UnauthorizedAdmin
                    &&& admin != old(self).config.admin_key
                    &&& final(self).config == old(self).config
                },
            },
    {
        ops::update_min_duration(&mut self.config, admin, new_min_duration)
    }
}

} // verus!
