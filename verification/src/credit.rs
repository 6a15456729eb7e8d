//! The credit ledger: the voting credit that each registered citizen has left.

use crate::error::Error;
use crate::allocation::Funds;
use crate::storage::{AccountId, StorageMap};
use vstd::prelude::*;

verus! {

/// Points a citizen can use to vote in a budget election.
pub type VotingCredit = u32;

/// The credit that a vote of `amount` costs: the square of `amount`, or the largest
/// credit where the square is larger than that.
pub open spec fn spec_credit_needed(amount: Funds) -> VotingCredit {
    if amount * amount <= VotingCredit::MAX {
        (amount * amount) as VotingCredit
    } else {
        VotingCredit::MAX
    }
}

/// The credit that a vote of `amount` costs: the square of `amount`, or the largest
/// credit where the square is larger than that.
#[verifier::when_used_as_spec(spec_credit_needed)]
pub fn credit_needed(amount: Funds) -> (cost: VotingCredit)
    ensures
        cost == spec_credit_needed(amount),
{
    match amount.checked_mul(amount) {
        Some(cost) => cost,
        None => VotingCredit::MAX,
    }
}

/// The registered citizens, each with the voting credit they have left. The model is a
/// map from the citizens to their credit: a citizen is registered when the map holds
/// them.
#[derive(Clone, Debug, PartialEq, Eq)]
pub struct CreditLedger {
    records: StorageMap<VotingCredit>,
}

impl View for CreditLedger {
    type V = Map<AccountId, VotingCredit>;

    closed spec fn view(&self) -> Map<AccountId, VotingCredit> {
        self.records@
    }
}

impl CreditLedger {
    /// The invariant of the type.
    pub closed spec fn wf(&self) -> bool {
        self.records.wf()
    }

    /// A ledger without citizens.
    pub fn new() -> (ledger: Self)
        ensures
            ledger.wf(),
            ledger@ == Map::<AccountId, VotingCredit>::empty(),
    {
        CreditLedger { records: StorageMap::new() }
    }

    /// Registers `who`, with no credit. Fails if they are registered already.
    pub fn register(&mut self, who: AccountId) -> (result: Result<(), Error>)
        requires
            old(self).wf(),
        ensures
            final(self).wf(),
            result == if old(self)@.contains_key(who) {
                Err::<(), Error>(Error::CitizenAlreadyRegistered)
            } else {
                Ok::<(), Error>(())
            },
            final(self)@ == if old(self)@.contains_key(who) {
                old(self)@
            } else {
                old(self)@.insert(who, 0)
            },
    {
        if self.records.contains_key(who) {
            return Err(Error::CitizenAlreadyRegistered);
        }
        self.records.insert(who, 0);
        Ok(())
    }

    /// Removes `who` and their credit. Fails if they are not registered.
    pub fn deregister(&mut self, who: AccountId) -> (result: Result<(), Error>)
        requires
            old(self).wf(),
        ensures
            final(self).wf(),
            result == if old(self)@.contains_key(who) {
                Ok::<(), Error>(())
            } else {
                Err::<(), Error>(Error::CitizenNotRegistered)
            },
            final(self)@ == old(self)@.remove(who),
    {
        if !self.records.contains_key(who) {
            return Err(Error::CitizenNotRegistered);
        }
        self.records.remove(who);
        Ok(())
    }

    /// Sets the credit of `who` to `amount`, whatever it was.
    pub fn issue_credit(&mut self, who: AccountId, amount: VotingCredit)
        requires
            old(self).wf(),
        ensures
            final(self).wf(),
            final(self)@ == old(self)@.insert(who, amount),
    {
        self.records.insert(who, amount);
    }

    /// Sets the credit of every registered citizen to `amount`.
    pub fn issue_credit_to_all(&mut self, amount: VotingCredit)
        requires
            old(self).wf(),
        ensures
            final(self).wf(),
            final(self)@ == reissued(old(self)@, amount),
    {
        self.records.fill(amount);
        assert(self@ =~= reissued(old(self)@, amount));
    }

    /// Takes `cost` from the credit of `who`. Fails if they are not registered, or have
    /// less credit than `cost`.
    pub fn spend(&mut self, who: AccountId, cost: VotingCredit) -> (result: Result<(), Error>)
        requires
            old(self).wf(),
        ensures
            final(self).wf(),
            result == spend_result(old(self)@, who, cost),
            final(self)@ == match result {
                Ok(_) => old(self)@.insert(who, (old(self)@[who] - cost) as VotingCredit),
                Err(_) => old(self)@,
            },
    {
        match self.records.get(who) {
            None => Err(Error::CitizenNotRegistered),
            Some(current) => {
                if current < cost {
                    Err(Error::NotEnoughVotingCredit)
                } else {
                    self.records.insert(who, current - cost);
                    Ok(())
                }
            },
        }
    }

    /// The credit that `who` has left, if they are registered.
    pub fn get(&self, who: AccountId) -> (credit: Option<VotingCredit>)
        requires
            self.wf(),
        ensures
            credit == if self@.contains_key(who) {
                Some(self@[who])
            } else {
                None
            },
    {
        self.records.get(who)
    }
}

/// The credit records after every registered citizen was given `amount`.
pub open spec fn reissued(records: Map<AccountId, VotingCredit>, amount: VotingCredit) -> Map<
    AccountId,
    VotingCredit,
> {
    Map::new(|who: AccountId| records.contains_key(who), |who: AccountId| amount)
}

/// Whether `who` can spend `cost`, and if not, why not.
pub open spec fn spend_result(
    records: Map<AccountId, VotingCredit>,
    who: AccountId,
    cost: VotingCredit,
) -> Result<(), Error> {
    if !records.contains_key(who) {
        Err(Error::CitizenNotRegistered)
    } else if records[who] < cost {
        Err(Error::NotEnoughVotingCredit)
    } else {
        Ok(())
    }
}

} // verus!
