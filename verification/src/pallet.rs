//! The budget state machine: registration, the opening of a round, votes at quadratic
//! cost, and the closing of the round, which settles the allocations.

use crate::allocation::{allocated, AllocationLedger, Funds};
use crate::balances::{Balance, NativeBalance};
use crate::credit::{credit_needed, CreditLedger, VotingCredit};
use crate::department::{get_department_acc, spec_department_acc, Department};
use crate::election::{BlockNumber, BudgetId, BudgetInfo, ElectionState};
use crate::error::Error;
use crate::event::Event;
use crate::origin::{ensure_root, ensure_signed, ensure_signed_or_root, RuntimeOrigin};
use crate::settlement::{drain_departments, settle};
use crate::state::{Config, State};
use crate::storage::AccountId;
use vstd::prelude::*;

verus! {

/// The budget election with all that it owns: the clock, the credit ledger, the election
/// state, the allocation ledger, the asset ledger and the events. The model is a `State`.
#[derive(Clone, Debug, PartialEq, Eq)]
pub struct Pallet {
    config: Config,
    block_number: BlockNumber,
    citizens: CreditLedger,
    election: ElectionState,
    distribution: AllocationLedger,
    balances: NativeBalance,
    events: Vec<Event>,
}

impl View for Pallet {
    type V = State;

    closed spec fn view(&self) -> State {
        State {
            config: self.config,
            block_number: self.block_number,
            citizens: self.citizens@,
            election: self.election@,
            distribution: self.distribution@,
            balances: self.balances@,
            events: self.events@,
        }
    }
}

impl Pallet {
    /// The invariant of the type. It implies that the state is valid.
    pub closed spec fn wf(&self) -> bool {
        &&& self.citizens.wf()
        &&& self.distribution.wf()
        &&& self.balances.wf()
    }

    /// A pallet in a well-formed condition has a valid state.
    pub proof fn lemma_wf_is_valid(&self)
        requires
            self.wf(),
        ensures
            self@.valid(),
    {
    }

    /// A pallet on which nothing has happened yet.
    pub fn new(config: Config) -> (pallet: Self)
        ensures
            pallet.wf(),
            pallet@ == State::init(config),
    {
        Pallet {
            config,
            block_number: 0,
            citizens: CreditLedger::new(),
            election: ElectionState::new(),
            distribution: AllocationLedger::new(),
            balances: NativeBalance::new(),
            events: Vec::new(),
        }
    }

    /// Records what a successful operation did.
    fn deposit_event(&mut self, event: Event)
        requires
            old(self).wf(),
        ensures
            final(self).wf(),
            final(self)@ == old(self)@.deposit_event(event),
    {
        self.events.push(event);
    }

    /// Moves the clock to `block_number`.
    pub fn set_block_number(&mut self, block_number: BlockNumber)
        requires
            old(self).wf(),
        ensures
            final(self).wf(),
            final(self)@ == old(self)@.set_block_number(block_number),
    {
        self.block_number = block_number;
    }

    /// Registers `who` as a citizen, without voting credit. Only the root can do that,
    /// and only for someone who is not registered.
    pub fn register_citizen(&mut self, origin: RuntimeOrigin, who: AccountId) -> (result: Result<
        (),
        Error,
    >)
        requires
            old(self).wf(),
        ensures
            final(self).wf(),
            result == old(self)@.register_citizen_result(origin, who),
            final(self)@ == old(self)@.register_citizen(origin, who),
    {
        match ensure_root(origin) {
            Err(error) => {
                return Err(error);
            },
            Ok(_) => {},
        }
        match self.citizens.register(who) {
            Err(error) => {
                return Err(error);
            },
            Ok(_) => {},
        }
        self.deposit_event(Event::CitizenRegistered { who });
        Ok(())
    }

    /// Removes the citizen `who` and their voting credit. Only the root can do that, and
    /// only for someone who is registered.
    pub fn deregister_citizen(&mut self, origin: RuntimeOrigin, who: AccountId) -> (result: Result<
        (),
        Error,
    >)
        requires
            old(self).wf(),
        ensures
            final(self).wf(),
            result == old(self)@.deregister_citizen_result(origin, who),
            final(self)@ == old(self)@.deregister_citizen(origin, who),
    {
        match ensure_root(origin) {
            Err(error) => {
                return Err(error);
            },
            Ok(_) => {},
        }
        match self.citizens.deregister(who) {
            Err(error) => {
                assert(self.citizens@ =~= old(self).citizens@);
                return Err(error);
            },
            Ok(_) => {},
        }
        self.deposit_event(Event::CitizenDeregistered { who });
        Ok(())
    }

    /// Commits `amount` of funds to `department`, on behalf of the citizen who signed, at
    /// the cost of `amount` squared in voting credit. A citizen needs to vote once for
    /// every department they want to fund, and can fund each department once in a round.
    pub fn vote(&mut self, origin: RuntimeOrigin, department: Department, amount: Funds) -> (result:
        Result<(), Error>)
        requires
            old(self).wf(),
        ensures
            final(self).wf(),
            result == old(self)@.vote_result(origin, department, amount),
            final(self)@ == old(self)@.vote(origin, department, amount),
    {
        if !self.is_open() {
            return Err(Error::BudgetIsClosed);
        }
        if self.past_deadline() {
            return Err(Error::CannotVotePastDeadline);
        }
        let citizen = match ensure_signed(origin) {
            Ok(citizen) => citizen,
            Err(error) => {
                return Err(error);
            },
        };
        let credit_available = match self.citizens.get(citizen) {
            Some(credit) => credit,
            None => {
                return Err(Error::CitizenNotRegistered);
            },
        };
        let cost = credit_needed(amount);
        if credit_available < cost {
            return Err(Error::NotEnoughVotingCredit);
        }
        if self.distribution.get(department, citizen).is_some() {
            return Err(Error::AlreadyVotedDepartment);
        }
        let _ = self.citizens.spend(citizen, cost);
        let _ = self.distribution.record(department, citizen, amount);
        self.deposit_event(Event::CitizenVoted { who: citizen, department, amount });
        Ok(())
    }

    /// Whether `open_budget` can be called with `origin`: either it would be refused, or
    /// the number and the deadline of the next election fit their types.
    pub fn open_budget_fits(&self, origin: RuntimeOrigin) -> (fits: bool)
        ensures
            fits == (self@.open_budget_result(origin) is Ok ==> self@.next_election_fits()),
    {
        if ensure_root(origin).is_err() || self.is_open() {
            return true;
        }
        let number_fits = match self.election.current() {
            Some(budget_info) => budget_info.budget_id < BudgetId::MAX,
            None => true,
        };
        number_fits && self.block_number <= BlockNumber::MAX - self.config.budget_lifetime as u64
    }

    /// Opens the next budget election: empties the accounts of the departments, and gives
    /// every registered citizen the voting credit of the configuration. Only the root can
    /// do that, and only while no election is open. The number of the election is one
    /// more than that of the last, and its deadline lies the configured lifetime after
    /// the current block: both must fit their types.
    pub fn open_budget(&mut self, origin: RuntimeOrigin) -> (result: Result<(), Error>)
        requires
            old(self).wf(),
            old(self)@.open_budget_result(origin) is Ok ==> old(self)@.next_election_fits(),
        ensures
            final(self).wf(),
            result == old(self)@.open_budget_result(origin),
            final(self)@ == old(self)@.open_budget(origin),
    {
        match ensure_root(origin) {
            Err(error) => {
                return Err(error);
            },
            Ok(_) => {},
        }
        if self.is_open() {
            return Err(Error::BudgetAlreadyOpen);
        }
        drain_departments(&mut self.balances);
        self.election.open_round(self.config.budget_lifetime, self.block_number);
        self.citizens.issue_credit_to_all(self.config.given_voting_credit);
        self.deposit_event(Event::BudgetOpen);
        Ok(())
    }

    /// Closes the budget election, and mints every allocation into the account of its
    /// department. The allocations are then off the record: the next round starts
    /// without them. Anyone who signed, and the root, can do that once the deadline is
    /// reached. Where a balance would pass the largest balance, nothing is minted and
    /// the election stays open.
    pub fn close_budget(&mut self, origin: RuntimeOrigin) -> (result: Result<(), Error>)
        requires
            old(self).wf(),
        ensures
            final(self).wf(),
            result == old(self)@.close_budget_result(origin),
            final(self)@ == old(self)@.close_budget(origin),
    {
        match ensure_signed_or_root(origin) {
            Err(error) => {
                return Err(error);
            },
            Ok(_) => {},
        }
        let budget_info = match self.election.current() {
            Some(budget_info) => budget_info,
            None => {
                return Err(Error::BudgetIsClosed);
            },
        };
        if !self.past_deadline() {
            return Err(Error::CannotCloseBeforeDeadline);
        }
        if !budget_info.is_open {
            return Err(Error::BudgetIsClosed);
        }
        let records = self.distribution.iterate_all();
        match settle(&self.balances, &records) {
            Some(balances) => {
                self.balances = balances;
            },
            None => {
                return Err(Error::MintOverflow);
            },
        }
        self.election.close_round();
        self.distribution.clear();
        self.deposit_event(Event::BudgetClosed);
        Ok(())
    }

    /// Whether an election is open.
    fn is_open(&self) -> (open: bool)
        ensures
            open == self@.is_open(),
    {
        match self.election.current() {
            Some(budget_info) => budget_info.is_open,
            None => false,
        }
    }

    /// The current point on the logical clock.
    pub fn get_current_block_number(&self) -> (block_number: BlockNumber)
        ensures
            block_number == self@.block_number,
    {
        self.block_number
    }

    /// Whether an election exists and its deadline is reached.
    pub fn past_deadline(&self) -> (past: bool)
        ensures
            past == self@.past_deadline(),
    {
        self.election.is_past_deadline(self.get_current_block_number())
    }

    /// The information regarding the election that is open or was closed last.
    pub fn budget_info(&self) -> (info: Option<BudgetInfo>)
        ensures
            info == self@.election,
    {
        self.election.current()
    }

    /// Adds `amount` to the balance of `account_id`. Fails, and changes nothing, if the
    /// balance would pass the largest balance.
    pub fn mint_funds(&mut self, account_id: &AccountId, amount: Balance) -> (result: Result<
        (),
        Error,
    >)
        requires
            old(self).wf(),
        ensures
            final(self).wf(),
            result == old(self)@.mint_funds_result(*account_id, amount),
            final(self)@ == old(self)@.mint_funds(*account_id, amount),
    {
        match self.balances.mint_into(*account_id, amount) {
            Ok(_) => Ok(()),
            Err(e) => Err(e),
        }
    }

    /// The account that holds the funds of `department`.
    pub fn get_department_acc(department: Department) -> (account: AccountId)
        ensures
            account == spec_department_acc(department),
    {
        get_department_acc(department)
    }

    /// The voting credit that `citizen` has left, if they are registered.
    pub fn get_citizen_voting_credit(&self, citizen: &AccountId) -> (credit: Option<VotingCredit>)
        requires
            self.wf(),
        ensures
            credit == if self@.citizens.contains_key(*citizen) {
                Some(self@.citizens[*citizen])
            } else {
                None
            },
    {
        self.citizens.get(*citizen)
    }

    /// The funds that `citizen` has committed to `department` in the round that is open,
    /// if any.
    pub fn budget_distribution(&self, department: Department, citizen: AccountId) -> (amount:
        Option<Funds>)
        ensures
            amount == allocated(self@.distribution, department, citizen),
    {
        self.distribution.get(department, citizen)
    }

    /// The balance of the account of `department`.
    pub fn balance_of(&self, department: Department) -> (balance: Balance)
        requires
            self.wf(),
        ensures
            balance == self@.balances[spec_department_acc(department)],
    {
        self.balances.balance(Self::get_department_acc(department))
    }

    /// What the successful operations did, oldest first.
    pub fn events(&self) -> (events: &Vec<Event>)
        ensures
            events@ == self@.events,
    {
        &self.events
    }

    /// What the last successful operation did.
    pub fn last_event(&self) -> (event: Option<Event>)
        ensures
            event == if self@.events.len() > 0 {
                Some(self@.events.last())
            } else {
                None
            },
    {
        if self.events.len() > 0 {
            Some(self.events[self.events.len() - 1])
        } else {
            None
        }
    }
}

} // verus!
