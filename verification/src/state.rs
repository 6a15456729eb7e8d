//! The mathematical model of the budget election: a state, and for each operation
//! the outcome on every state and input.
//!
//! An operation is either applied in full or rejected, and a rejected operation leaves
//! the state as it was.

use crate::allocation::{allocated, one_vote_per_department, Allocation, Funds};
use crate::balances::{can_mint, Balance};
use crate::credit::{reissued, spec_credit_needed, VotingCredit};
use crate::department::Department;
use crate::election::{
    closed, is_open, opened, past_deadline, BlockNumber, BudgetId, BudgetInfo,
};
use crate::error::Error;
use crate::event::Event;
use crate::origin::{
    spec_ensure_root,
    spec_ensure_signed,
    spec_ensure_signed_or_root,
    RuntimeOrigin,
};
use crate::settlement::{can_settle, drained, settled};
use crate::storage::AccountId;
use vstd::prelude::*;

verus! {

/// What is fixed when the pallet is set up.
#[derive(Debug, Copy, Clone, PartialEq, Eq, Structural)]
pub struct Config {
    /// The amount of voting credit given to a citizen when a budget election opens.
    pub given_voting_credit: VotingCredit,
    /// For how many blocks citizens can vote in a budget election.
    pub budget_lifetime: u32,
}

/// The state of the pallet.
pub struct State {
    pub config: Config,
    /// The current point on the logical clock.
    pub block_number: BlockNumber,
    /// The registered citizens, each with the voting credit they have left.
    pub citizens: Map<AccountId, VotingCredit>,
    /// The election that is open or was closed last.
    pub election: Option<BudgetInfo>,
    /// The allocations of the round that is open, in the order in which they were made.
    pub distribution: Seq<Allocation>,
    /// The balance of every account.
    pub balances: Map<AccountId, Balance>,
    /// What the successful operations did, oldest first.
    pub events: Seq<Event>,
}

impl State {
    /// The state in which nothing has happened yet.
    pub open spec fn init(config: Config) -> State {
        State {
            config,
            block_number: 0,
            citizens: Map::empty(),
            election: None,
            distribution: Seq::empty(),
            balances: Map::total(|who: AccountId| 0 as Balance),
            events: Seq::empty(),
        }
    }

    /// What holds of every state that the operations reach: no citizen has two
    /// allocations to one department.
    pub open spec fn valid(self) -> bool {
        one_vote_per_department(self.distribution)
    }

    /// Whether an election is open.
    pub open spec fn is_open(self) -> bool {
        is_open(self.election)
    }

    /// Whether an election exists and its deadline is reached.
    pub open spec fn past_deadline(self) -> bool {
        past_deadline(self.election, self.block_number)
    }

    /// The state with one more event.
    pub open spec fn deposit_event(self, event: Event) -> State {
        State { events: self.events.push(event), ..self }
    }

    /// The state at another point on the clock.
    pub open spec fn set_block_number(self, block_number: BlockNumber) -> State {
        State { block_number, ..self }
    }

    /// Whether the root may register `who`.
    pub open spec fn register_citizen_result(self, origin: RuntimeOrigin, who: AccountId) -> Result<
        (),
        Error,
    > {
        if spec_ensure_root(origin) is Err {
            Err(Error::BadOrigin)
        } else if self.citizens.contains_key(who) {
            Err(Error::CitizenAlreadyRegistered)
        } else {
            Ok(())
        }
    }

    /// The state after `register_citizen`: on success `who` is registered without credit.
    pub open spec fn register_citizen(self, origin: RuntimeOrigin, who: AccountId) -> State {
        if self.register_citizen_result(origin, who) is Ok {
            State { citizens: self.citizens.insert(who, 0), ..self }.deposit_event(
                Event::CitizenRegistered { who },
            )
        } else {
            self
        }
    }

    /// Whether the root may deregister `who`.
    pub open spec fn deregister_citizen_result(
        self,
        origin: RuntimeOrigin,
        who: AccountId,
    ) -> Result<(), Error> {
        if spec_ensure_root(origin) is Err {
            Err(Error::BadOrigin)
        } else if !self.citizens.contains_key(who) {
            Err(Error::CitizenNotRegistered)
        } else {
            Ok(())
        }
    }

    /// The state after `deregister_citizen`: on success `who` and their credit are gone.
    pub open spec fn deregister_citizen(self, origin: RuntimeOrigin, who: AccountId) -> State {
        if self.deregister_citizen_result(origin, who) is Ok {
            State { citizens: self.citizens.remove(who), ..self }.deposit_event(
                Event::CitizenDeregistered { who },
            )
        } else {
            self
        }
    }

    /// Whether the caller may commit `amount` to `department`. The checks are made in this
    /// order, and the first that fails gives the error.
    pub open spec fn vote_result(
        self,
        origin: RuntimeOrigin,
        department: Department,
        amount: Funds,
    ) -> Result<(), Error> {
        if !self.is_open() {
            Err(Error::BudgetIsClosed)
        } else if self.past_deadline() {
            Err(Error::CannotVotePastDeadline)
        } else {
            match spec_ensure_signed(origin) {
                Err(_) => Err(Error::BadOrigin),
                Ok(citizen) => {
                    if !self.citizens.contains_key(citizen) {
                        Err(Error::CitizenNotRegistered)
                    } else if self.citizens[citizen] < spec_credit_needed(amount) {
                        Err(Error::NotEnoughVotingCredit)
                    } else if allocated(self.distribution, department, citizen) is Some {
                        Err(Error::AlreadyVotedDepartment)
                    } else {
                        Ok(())
                    }
                },
            }
        }
    }

    /// The state after `vote`: on success the citizen has paid the credit that the vote
    /// costs, and the allocation is recorded.
    pub open spec fn vote(
        self,
        origin: RuntimeOrigin,
        department: Department,
        amount: Funds,
    ) -> State {
        if self.vote_result(origin, department, amount) is Ok {
            let citizen = spec_ensure_signed(origin)->Ok_0;
            State {
                citizens: self.citizens.insert(
                    citizen,
                    (self.citizens[citizen] - spec_credit_needed(amount)) as VotingCredit,
                ),
                distribution: self.distribution.push(Allocation { department, citizen, amount }),
                ..self
            }.deposit_event(Event::CitizenVoted { who: citizen, department, amount })
        } else {
            self
        }
    }

    /// Whether the root may open a budget election.
    pub open spec fn open_budget_result(self, origin: RuntimeOrigin) -> Result<(), Error> {
        if spec_ensure_root(origin) is Err {
            Err(Error::BadOrigin)
        } else if self.is_open() {
            Err(Error::BudgetAlreadyOpen)
        } else {
            Ok(())
        }
    }

    /// Whether the number and the deadline of the next election fit their types.
    pub open spec fn next_election_fits(self) -> bool {
        &&& self.election matches Some(info) ==> info.budget_id < BudgetId::MAX
        &&& self.block_number + self.config.budget_lifetime <= BlockNumber::MAX
    }

    /// The state after `open_budget`: on success the accounts of the departments are
    /// empty, the next election is open, and every registered citizen has the credit that
    /// the configuration gives.
    pub open spec fn open_budget(self, origin: RuntimeOrigin) -> State {
        if self.open_budget_result(origin) is Ok {
            State {
                balances: drained(self.balances),
                election: Some(
                    opened(self.election, self.config.budget_lifetime, self.block_number),
                ),
                citizens: reissued(self.citizens, self.config.given_voting_credit),
                ..self
            }.deposit_event(Event::BudgetOpen)
        } else {
            self
        }
    }

    /// Whether the caller may close the budget election. The checks are made in this
    /// order, and the first that fails gives the error.
    pub open spec fn close_budget_result(self, origin: RuntimeOrigin) -> Result<(), Error> {
        if spec_ensure_signed_or_root(origin) is Err {
            Err(Error::BadOrigin)
        } else if self.election is None {
            Err(Error::BudgetIsClosed)
        } else if !self.past_deadline() {
            Err(Error::CannotCloseBeforeDeadline)
        } else if !self.is_open() {
            Err(Error::BudgetIsClosed)
        } else if !can_settle(self.balances, self.distribution) {
            Err(Error::MintOverflow)
        } else {
            Ok(())
        }
    }

    /// The state after `close_budget`: on success the election is closed, and every
    /// allocation is minted into the account of its department and forgotten.
    pub open spec fn close_budget(self, origin: RuntimeOrigin) -> State {
        if self.close_budget_result(origin) is Ok {
            State {
                election: closed(self.election),
                balances: settled(self.balances, self.distribution),
                distribution: Seq::empty(),
                ..self
            }.deposit_event(Event::BudgetClosed)
        } else {
            self
        }
    }

    /// Whether `amount` can be minted into `account`.
    pub open spec fn mint_funds_result(self, account: AccountId, amount: Balance) -> Result<
        (),
        Error,
    > {
        if can_mint(self.balances, account, amount) {
            Ok(())
        } else {
            Err(Error::MintOverflow)
        }
    }

    /// The state after `mint_funds`: on success the balance of `account` is larger by
    /// `amount`.
    pub open spec fn mint_funds(self, account: AccountId, amount: Balance) -> State {
        if self.mint_funds_result(account, amount) is Ok {
            State {
                balances: self.balances.insert(
                    account,
                    (self.balances[account] + amount) as Balance,
                ),
                ..self
            }
        } else {
            self
        }
    }
}

} // verus!
