//! The token ledger: account balances in token units, changed only by
//! `mint` (for the minting authority) and `burn` (for the account owner).
use crate::auth::{authorized, Principal};
use std::collections::HashMap;
use vstd::prelude::*;

verus! {

broadcast use vstd::std_specs::hash::group_hash_axioms;

/// Why a ledger operation was refused.
#[derive(Clone, Copy, Debug, PartialEq, Eq, Structural)]
pub enum LedgerError {
    /// The caller is not the principal the operation requires.
    Unauthorized,
    /// The amount is zero or negative.
    InvalidAmount,
    /// The account holds less than the amount to burn.
    InsufficientBalance,
    /// The new balance would not fit in an `i128`.
    Overflow,
}

/// A ledger of energy-token balances, keyed by account.
pub struct EnergyToken {
    admin: Principal,
    balances: HashMap<u64, i128>,
}

/// The balance held under `id` in `m`: zero for an account never credited.
pub open spec fn balance_in(m: Map<u64, i128>, id: u64) -> int {
    if m.contains_key(id) {
        m[id] as int
    } else {
        0
    }
}

/// What `mint` returns, given the ledger's minting authority and the
/// current balance of the credited account.
pub open spec fn mint_result(admin: Principal, balance: int, caller: Principal, amount: int) -> Result<(), LedgerError> {
    if caller != admin {
        Err(LedgerError::Unauthorized)
    } else if amount <= 0 {
        Err(LedgerError::InvalidAmount)
    } else if balance + amount > i128::MAX {
        Err(LedgerError::Overflow)
    } else {
        Ok(())
    }
}

/// What `burn` returns, given the current balance of the debited account.
pub open spec fn burn_result(account: Principal, balance: int, caller: Principal, amount: int) -> Result<(), LedgerError> {
    if caller != account {
        Err(LedgerError::Unauthorized)
    } else if amount <= 0 {
        Err(LedgerError::InvalidAmount)
    } else if balance < amount {
        Err(LedgerError::InsufficientBalance)
    } else {
        Ok(())
    }
}

/// What `settle` returns: `payer` pays `debit` and `payee` receives
/// `credit`, the difference being minted, so only the minting authority
/// may settle.
pub open spec fn settle_result(t: &EnergyToken, caller: Principal, payer: Principal, payee: Principal, debit: int, credit: int) -> Result<(), LedgerError> {
    if caller != t.spec_admin() {
        Err(LedgerError::Unauthorized)
    } else if debit < 0 || credit < 0 {
        Err(LedgerError::InvalidAmount)
    } else if t.spec_balance(payer) < debit {
        Err(LedgerError::InsufficientBalance)
    } else if t.spec_balance(payee) - (if payee == payer { debit } else { 0 }) + credit > i128::MAX {
        Err(LedgerError::Overflow)
    } else {
        Ok(())
    }
}

impl EnergyToken {
    /// The principal allowed to mint.
    pub closed spec fn spec_admin(&self) -> Principal {
        self.admin
    }

    /// The balance of `account`, in token units.
    pub closed spec fn spec_balance(&self, account: Principal) -> int {
        balance_in(self.balances@, account.id)
    }

    /// Every stored balance is non-negative.
    pub closed spec fn wf(&self) -> bool {
        forall|id: u64| #[trigger] self.balances@.contains_key(id) ==> self.balances@[id] >= 0
    }

    /// `post` is `pre` with `delta` added to the balance of `account` and
    /// every other balance, and the minting authority, left as they were.
    pub open spec fn changed_by(pre: &EnergyToken, post: &EnergyToken, account: Principal, delta: int) -> bool {
        &&& post.spec_admin() == pre.spec_admin()
        &&& forall|b: Principal| #[trigger] post.spec_balance(b) == pre.spec_balance(b) + if b == account {
            delta
        } else {
            0
        }
    }

    /// A ledger with no balances, whose minting authority is `admin`.
    pub fn initialize(admin: Principal) -> (r: EnergyToken)
        ensures
            r.wf(),
            r.spec_admin() == admin,
            forall|a: Principal| #[trigger] r.spec_balance(a) == 0,
    {
        EnergyToken { admin, balances: HashMap::new() }
    }

    /// The balance of `account`: zero for an account never credited.
    pub fn balance_of(&self, account: Principal) -> (r: i128)
        requires
            self.wf(),
        ensures
            r == self.spec_balance(account),
            r >= 0,
    {
        match self.balances.get(&account.id) {
            Some(b) => *b,
            None => 0,
        }
    }

    /// The balance of `user`; the same read as `balance_of`.
    pub fn get_balance(&self, user: Principal) -> (r: i128)
        requires
            self.wf(),
        ensures
            r == self.spec_balance(user),
    {
        self.balance_of(user)
    }

    /// Credits `amount` token units to `to`. Only the minting authority may
    /// mint, and only a positive amount.
    pub fn mint(&mut self, caller: Principal, to: Principal, amount: i128) -> (r: Result<(), LedgerError>)
        requires
            old(self).wf(),
        ensures
            final(self).wf(),
            r == mint_result(old(self).spec_admin(), old(self).spec_balance(to), caller, amount as int),
            r is Ok ==> EnergyToken::changed_by(old(self), final(self), to, amount as int),
            r is Err ==> *final(self) == *old(self),
    {
        if !authorized(caller, self.admin) {
            return Err(LedgerError::Unauthorized);
        }
        if amount <= 0 {
            return Err(LedgerError::InvalidAmount);
        }
        let balance = self.balance_of(to);
        if balance > i128::MAX - amount {
            return Err(LedgerError::Overflow);
        }
        self.balances.insert(to.id, balance + amount);
        Ok(())
    }

    /// Debits `amount` token units from `account`. Only the account's owner
    /// may burn, only a positive amount, and no more than the balance.
    pub fn burn(&mut self, caller: Principal, account: Principal, amount: i128) -> (r: Result<(), LedgerError>)
        requires
            old(self).wf(),
        ensures
            final(self).wf(),
            r == burn_result(account, old(self).spec_balance(account), caller, amount as int),
            r is Ok ==> EnergyToken::changed_by(old(self), final(self), account, -amount),
            r is Err ==> *final(self) == *old(self),
    {
        if !authorized(caller, account) {
            return Err(LedgerError::Unauthorized);
        }
        if amount <= 0 {
            return Err(LedgerError::InvalidAmount);
        }
        let balance = self.balance_of(account);
        if balance < amount {
            return Err(LedgerError::InsufficientBalance);
        }
        self.balances.insert(account.id, balance - amount);
        Ok(())
    }
    /// Settles a trade in one step: debits `debit` from `payer` and credits
    /// `credit` to `payee`. Either both balances change or neither does.
    pub fn settle(&mut self, caller: Principal, payer: Principal, payee: Principal, debit: i128, credit: i128) -> (r: Result<(), LedgerError>)
        requires
            old(self).wf(),
        ensures
            final(self).wf(),
            r == settle_result(old(self), caller, payer, payee, debit as int, credit as int),
            r is Ok ==> final(self).spec_admin() == old(self).spec_admin() && forall|b: Principal|
                #[trigger] final(self).spec_balance(b) == old(self).spec_balance(b) - (if b == payer {
                    debit as int
                } else {
                    0
                }) + (if b == payee {
                    credit as int
                } else {
                    0
                }),
            r is Err ==> *final(self) == *old(self),
    {
        if !authorized(caller, self.admin) {
            return Err(LedgerError::Unauthorized);
        }
        if debit < 0 || credit < 0 {
            return Err(LedgerError::InvalidAmount);
        }
        let payer_balance = self.balance_of(payer);
        if payer_balance < debit {
            return Err(LedgerError::InsufficientBalance);
        }
        let payee_balance = if payee == payer {
            payer_balance - debit
        } else {
            self.balance_of(payee)
        };
        if payee_balance > i128::MAX - credit {
            return Err(LedgerError::Overflow);
        }
        self.balances.insert(payer.id, payer_balance - debit);
        self.balances.insert(payee.id, payee_balance + credit);
        Ok(())
    }
}

/// No balance of a well-formed ledger is negative. Every ledger operation
/// keeps the ledger well-formed, so this holds after any sequence of mints
/// and burns.
pub proof fn lemma_balance_never_negative(t: &EnergyToken, account: Principal)
    requires
        t.wf(),
    ensures
        t.spec_balance(account) >= 0,
{
}

/// A successful `burn(a, x)` followed by `mint(a, x)` from the minting
/// authority: the mint succeeds, and every balance is what it was before the
/// burn.
pub proof fn lemma_burn_then_mint_restores(t0: &EnergyToken, t1: &EnergyToken, t2: &EnergyToken, account: Principal, amount: int)
    requires
        t0.wf(),
        burn_result(account, t0.spec_balance(account), account, amount) == Ok::<(), LedgerError>(()),
        EnergyToken::changed_by(t0, t1, account, -amount),
    ensures
        mint_result(t1.spec_admin(), t1.spec_balance(account), t1.spec_admin(), amount) == Ok::<(), LedgerError>(()),
        EnergyToken::changed_by(t1, t2, account, amount) ==> forall|b: Principal| #[trigger] t2.spec_balance(b) == t0.spec_balance(b),
{
    assert(t1.spec_balance(account) == t0.spec_balance(account) - amount);
}

} // verus!
