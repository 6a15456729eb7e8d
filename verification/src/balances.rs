//! The asset ledger: the balance of each account.

use crate::error::Error;
use crate::storage::{AccountId, StorageMap};
use vstd::prelude::*;

verus! {

/// An amount of funds on an account.
pub type Balance = u64;

/// The balances of all accounts. The model is a total map from the accounts to their
/// balances: an account that never received anything has a balance of 0.
#[derive(Clone, Debug, PartialEq, Eq)]
pub struct NativeBalance {
    accounts: StorageMap<Balance>,
}

impl View for NativeBalance {
    type V = Map<AccountId, Balance>;

    closed spec fn view(&self) -> Map<AccountId, Balance> {
        Map::total(
            |who: AccountId|
                if self.accounts@.contains_key(who) {
                    self.accounts@[who]
                } else {
                    0
                },
        )
    }
}

/// Whether `amount` can be minted into the account of `who`.
pub open spec fn can_mint(
    balances: Map<AccountId, Balance>,
    who: AccountId,
    amount: Balance,
) -> bool {
    balances[who] + amount <= Balance::MAX
}

impl NativeBalance {
    /// The invariant of the type.
    pub closed spec fn wf(&self) -> bool {
        self.accounts.wf()
    }

    /// Every account has a balance.
    pub proof fn lemma_view_is_total(&self)
        ensures
            forall|who: AccountId| self@.contains_key(who),
    {
    }

    /// A ledger on which every balance is 0.
    pub fn new() -> (ledger: Self)
        ensures
            ledger.wf(),
            ledger@ == Map::total(|who: AccountId| 0 as Balance),
    {
        let ledger = NativeBalance { accounts: StorageMap::new() };
        assert(ledger@ =~= Map::total(|who: AccountId| 0 as Balance));
        ledger
    }

    /// The balance of `who`.
    pub fn balance(&self, who: AccountId) -> (balance: Balance)
        requires
            self.wf(),
        ensures
            balance == self@[who],
    {
        match self.accounts.get(who) {
            Some(balance) => balance,
            None => 0,
        }
    }

    /// Sets the balance of `who` to `amount`.
    pub fn set_balance(&mut self, who: AccountId, amount: Balance)
        requires
            old(self).wf(),
        ensures
            final(self).wf(),
            final(self)@ == old(self)@.insert(who, amount),
    {
        self.accounts.insert(who, amount);
        assert(self@ =~= old(self)@.insert(who, amount));
    }

    /// Adds `amount` to the balance of `who`. Fails, and changes nothing, if the balance
    /// would pass the largest balance.
    pub fn mint_into(&mut self, who: AccountId, amount: Balance) -> (result: Result<(), Error>)
        requires
            old(self).wf(),
        ensures
            final(self).wf(),
            result == if can_mint(old(self)@, who, amount) {
                Ok::<(), Error>(())
            } else {
                Err::<(), Error>(Error::MintOverflow)
            },
            final(self)@ == if can_mint(old(self)@, who, amount) {
                old(self)@.insert(who, (old(self)@[who] + amount) as Balance)
            } else {
                old(self)@
            },
    {
        let balance = self.balance(who);
        match balance.checked_add(amount) {
            Some(sum) => {
                self.set_balance(who, sum);
                Ok(())
            },
            None => Err(Error::MintOverflow),
        }
    }

    /// A second ledger with the same balances.
    pub fn duplicate(&self) -> (copy: Self)
        requires
            self.wf(),
        ensures
            copy.wf(),
            copy@ == self@,
    {
        NativeBalance { accounts: self.accounts.duplicate() }
    }
}

} // verus!
