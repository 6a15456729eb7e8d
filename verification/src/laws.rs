//! What holds of the budget election on every state, stated over the model and proved.

use crate::allocation::{
    allocated, funds_allocated, funds_owed, lemma_allocated_after_push,
    lemma_allocated_iff_funded, lemma_funds_owed_to_department, Allocation, Funds,
};
use crate::balances::Balance;
use crate::credit::VotingCredit;
use crate::department::{spec_department_accs_are_distinct, spec_department_acc, Department};
use crate::election::{BlockNumber, BudgetId};
use crate::error::Error;
use crate::event::Event;
use crate::origin::RuntimeOrigin;
use crate::settlement::can_settle;
use crate::state::{Config, State};
use crate::storage::AccountId;
use vstd::prelude::*;

verus! {

/// Votes cost the square of what they commit. While a round is open and its deadline
/// is not reached, a registered citizen who has not yet funded `department` can commit
/// `amount` to it exactly when the square of `amount` is no more than their credit, and
/// the vote then takes exactly that square from their credit. A vote that is refused
/// is refused for want of credit. The one case left out is a square above the largest
/// credit held against a credit of exactly that size: the cost is capped there.
pub proof fn law_quadratic_cost(
    state: State,
    citizen: AccountId,
    department: Department,
    amount: Funds,
)
    requires
        state.is_open(),
        !state.past_deadline(),
        state.citizens.contains_key(citizen),
        allocated(state.distribution, department, citizen) is None,
        amount * amount <= VotingCredit::MAX || state.citizens[citizen] < VotingCredit::MAX,
    ensures
        state.vote_result(RuntimeOrigin::Signed(citizen), department, amount) is Ok <==> amount
            * amount <= state.citizens[citizen],
        amount * amount <= state.citizens[citizen] ==> state.vote(
            RuntimeOrigin::Signed(citizen),
            department,
            amount,
        ).citizens[citizen] == state.citizens[citizen] - amount * amount,
        amount * amount > state.citizens[citizen] ==> state.vote_result(
            RuntimeOrigin::Signed(citizen),
            department,
            amount,
        ) == Err::<(), Error>(Error::NotEnoughVotingCredit),
{
}

/// A citizen funds a department once in a round. After a vote that succeeded, every
/// further vote of the same citizen for the same department is refused, as a double
/// vote wherever the citizen has the credit for it, and changes nothing: the first
/// allocation stands, and so does the citizen's credit.
pub proof fn law_one_vote_per_department(
    state: State,
    citizen: AccountId,
    department: Department,
    amount: Funds,
    again: Funds,
)
    requires
        state.vote_result(RuntimeOrigin::Signed(citizen), department, amount) is Ok,
    ensures
        ({
            let origin = RuntimeOrigin::Signed(citizen);
            let after = state.vote(origin, department, amount);
            &&& allocated(after.distribution, department, citizen) == Some(amount)
            &&& after.vote_result(origin, department, again) is Err
            &&& again * again <= after.citizens[citizen] ==> after.vote_result(
                origin,
                department,
                again,
            ) == Err::<(), Error>(Error::AlreadyVotedDepartment)
            &&& after.vote(origin, department, again) == after
        }),
{
    let origin = RuntimeOrigin::Signed(citizen);
    let after = state.vote(origin, department, amount);
    let record = after.distribution.last();
    lemma_allocated_after_push(state.distribution, record, department, citizen);
}

/// While the allocation of a citizen to a department is on record, no vote of that
/// citizen for that department succeeds, and none changes anything.
pub proof fn law_recorded_allocation_stands(
    state: State,
    citizen: AccountId,
    department: Department,
    amount: Funds,
)
    requires
        allocated(state.distribution, department, citizen) is Some,
    ensures
        state.vote_result(RuntimeOrigin::Signed(citizen), department, amount) is Err,
        state.vote(RuntimeOrigin::Signed(citizen), department, amount) == state,
{
}

/// No operation leads from a valid state to one in which a citizen has two allocations
/// to one department, and the initial state is valid.
pub proof fn law_valid_is_invariant(
    state: State,
    config: Config,
    origin: RuntimeOrigin,
    who: AccountId,
    department: Department,
    amount: Funds,
    minted: Balance,
    block_number: BlockNumber,
)
    requires
        state.valid(),
    ensures
        State::init(config).valid(),
        state.set_block_number(block_number).valid(),
        state.register_citizen(origin, who).valid(),
        state.deregister_citizen(origin, who).valid(),
        state.vote(origin, department, amount).valid(),
        state.open_budget(origin).valid(),
        state.close_budget(origin).valid(),
        state.mint_funds(who, minted).valid(),
{
    if state.vote_result(origin, department, amount) is Ok {
        let citizen = origin->Signed_0;
        lemma_allocated_iff_funded(state.distribution, department, citizen);
        let before = state.distribution;
        let after = state.vote(origin, department, amount).distribution;
        assert forall|i: int, j: int| 0 <= i < j < after.len() implies !((
        #[trigger] after[i]).department == (#[trigger] after[j]).department && after[i].citizen
            == after[j].citizen) by {
            if j < before.len() {
                assert(after[i] == before[i]);
                assert(after[j] == before[j]);
            } else {
                assert(after[i] == before[i]);
            }
        }
    }
}

/// Registration is guarded: to register a citizen who is registered fails, whoever
/// asks, and leaves their credit and all else as it was.
pub proof fn law_registered_citizen_is_not_registered_again(
    state: State,
    origin: RuntimeOrigin,
    who: AccountId,
)
    requires
        state.citizens.contains_key(who),
    ensures
        state.register_citizen_result(origin, who) is Err,
        origin == RuntimeOrigin::Root ==> state.register_citizen_result(origin, who) == Err::<
            (),
            Error,
        >(Error::CitizenAlreadyRegistered),
        state.register_citizen(origin, who) == state,
        state.register_citizen(origin, who).citizens[who] == state.citizens[who],
{
}

/// To deregister someone who is not registered fails, whoever asks, and changes nothing.
pub proof fn law_stranger_is_not_deregistered(state: State, origin: RuntimeOrigin, who: AccountId)
    requires
        !state.citizens.contains_key(who),
    ensures
        state.deregister_citizen_result(origin, who) is Err,
        origin == RuntimeOrigin::Root ==> state.deregister_citizen_result(origin, who) == Err::<
            (),
            Error,
        >(Error::CitizenNotRegistered),
        state.deregister_citizen(origin, who) == state,
{
}

/// The deadline ends the voting: from the deadline of the election on, every vote fails
/// and changes nothing.
pub proof fn law_no_vote_past_deadline(
    state: State,
    origin: RuntimeOrigin,
    department: Department,
    amount: Funds,
)
    requires
        state.election matches Some(info) && state.block_number >= info.deadline,
    ensures
        state.vote_result(origin, department, amount) is Err,
        state.is_open() ==> state.vote_result(origin, department, amount) == Err::<(), Error>(
            Error::CannotVotePastDeadline,
        ),
        state.vote(origin, department, amount) == state,
{
}

/// The deadline gates the closing: before the deadline of the election nobody can close
/// it, and from the deadline on the root and every account that signs can close an
/// open election, provided that the accounts of the departments can take the funds.
pub proof fn law_close_waits_for_deadline(state: State, origin: RuntimeOrigin)
    requires
        state.election is Some,
    ensures
        state.block_number < state.election->Some_0.deadline ==> {
            &&& state.close_budget_result(origin) is Err
            &&& state.close_budget(origin) == state
            &&& (origin is Root || origin is Signed) ==> state.close_budget_result(origin) == Err::<
                (),
                Error,
            >(Error::CannotCloseBeforeDeadline)
        },
        state.block_number >= state.election->Some_0.deadline && state.is_open() && (origin is Root
            || origin is Signed) && can_settle(state.balances, state.distribution)
            ==> state.close_budget_result(origin) is Ok,
{
}

/// The opening of a round resets what the last one left: after it every registered
/// citizen has the credit that the configuration gives, the same citizens are
/// registered, and the account of every department is empty.
pub proof fn law_open_budget_resets(state: State, origin: RuntimeOrigin)
    requires
        state.open_budget_result(origin) is Ok,
    ensures
        ({
            let after = state.open_budget(origin);
            &&& after.is_open()
            &&& forall|who: AccountId|
                after.citizens.contains_key(who) <==> state.citizens.contains_key(who)
            &&& forall|who: AccountId| #[trigger]
                after.citizens.contains_key(who) ==> after.citizens[who]
                    == state.config.given_voting_credit
            &&& forall|department: Department| #[trigger]
                after.balances[spec_department_acc(department)] == 0
        }),
{
}

/// Rounds are numbered from 0, each one more than the last, and the deadline of a
/// round is fixed when it opens: the lifetime of the configuration after the block at
/// which it opens.
pub proof fn law_rounds_are_numbered(state: State, origin: RuntimeOrigin)
    requires
        state.open_budget_result(origin) is Ok,
        state.next_election_fits(),
    ensures
        ({
            let after = state.open_budget(origin);
            &&& after.election is Some
            &&& after.election->Some_0.budget_id == match state.election {
                Some(last) => last.budget_id + 1,
                None => 0,
            }
            &&& after.election->Some_0.deadline == state.block_number
                + state.config.budget_lifetime
        }),
{
}

/// After a round is closed the next can be opened. It has the number that follows, and
/// every citizen who is registered has the credit that the configuration gives.
pub proof fn law_reopen_after_close(state: State, origin: RuntimeOrigin)
    requires
        state.close_budget_result(origin) is Ok,
        state.election->Some_0.budget_id < BudgetId::MAX,
    ensures
        ({
            let closed = state.close_budget(origin);
            let reopened = closed.open_budget(RuntimeOrigin::Root);
            &&& !closed.is_open()
            &&& closed.open_budget_result(RuntimeOrigin::Root) is Ok
            &&& reopened.election is Some
            &&& reopened.election->Some_0.budget_id == state.election->Some_0.budget_id + 1
            &&& reopened.election->Some_0.is_open
            &&& forall|who: AccountId|
                reopened.citizens.contains_key(who) <==> state.citizens.contains_key(who)
            &&& forall|who: AccountId| #[trigger]
                reopened.citizens.contains_key(who) ==> reopened.citizens[who]
                    == state.config.given_voting_credit
        }),
{
}

/// A round is settled once: after it was closed, nobody can close it again, and no
/// allocation of it is left on record.
pub proof fn law_round_is_settled_once(state: State, origin: RuntimeOrigin, again: RuntimeOrigin)
    requires
        state.close_budget_result(origin) is Ok,
    ensures
        ({
            let closed = state.close_budget(origin);
            &&& closed.distribution == Seq::<Allocation>::empty()
            &&& closed.close_budget_result(again) is Err
            &&& closed.close_budget(again) == closed
            &&& (again is Root || again is Signed) ==> closed.close_budget_result(again) == Err::<
                (),
                Error,
            >(Error::BudgetIsClosed)
        }),
{
}

/// Settlement gives every account what was committed to it, and where no two
/// departments share an account, it gives the account of every department exactly what
/// was committed to that department.
pub proof fn law_settlement_funds_departments(
    state: State,
    origin: RuntimeOrigin,
    department: Department,
)
    requires
        state.close_budget_result(origin) is Ok,
    ensures
        forall|account: AccountId| #[trigger]
            state.close_budget(origin).balances[account] == state.balances[account] + funds_owed(
                state.distribution,
                account,
            ),
        spec_department_accs_are_distinct() ==> state.close_budget(
            origin,
        ).balances[spec_department_acc(department)] == state.balances[spec_department_acc(
            department,
        )] + funds_allocated(state.distribution, department),
{
    if spec_department_accs_are_distinct() {
        lemma_funds_owed_to_department(state.distribution, department);
    }
}

/// The election and the allocations stay as they are when citizens are registered or
/// deregistered, when funds are minted and when the clock moves: an election changes
/// when it is opened and when it is closed, and allocations are added by votes and
/// taken away by the closing alone. The closing leaves the number and the deadline of
/// the election as they were.
pub proof fn law_election_is_stable(
    state: State,
    origin: RuntimeOrigin,
    who: AccountId,
    department: Department,
    amount: Funds,
    minted: Balance,
    block_number: BlockNumber,
)
    ensures
        state.register_citizen(origin, who).election == state.election,
        state.deregister_citizen(origin, who).election == state.election,
        state.vote(origin, department, amount).election == state.election,
        state.mint_funds(who, minted).election == state.election,
        state.set_block_number(block_number).election == state.election,
        state.register_citizen(origin, who).distribution == state.distribution,
        state.deregister_citizen(origin, who).distribution == state.distribution,
        state.open_budget(origin).distribution == state.distribution,
        state.mint_funds(who, minted).distribution == state.distribution,
        state.set_block_number(block_number).distribution == state.distribution,
        state.election matches Some(info) ==> state.close_budget(origin).election matches Some(
            after,
        ) && after.budget_id == info.budget_id && after.deadline == info.deadline,
{
}

/// An operation that is rejected changes nothing.
pub proof fn law_rejected_operation_changes_nothing(
    state: State,
    origin: RuntimeOrigin,
    who: AccountId,
    department: Department,
    amount: Funds,
    minted: Balance,
)
    ensures
        state.register_citizen_result(origin, who) is Err ==> state.register_citizen(origin, who)
            == state,
        state.deregister_citizen_result(origin, who) is Err ==> state.deregister_citizen(
            origin,
            who,
        ) == state,
        state.vote_result(origin, department, amount) is Err ==> state.vote(
            origin,
            department,
            amount,
        ) == state,
        state.open_budget_result(origin) is Err ==> state.open_budget(origin) == state,
        state.close_budget_result(origin) is Err ==> state.close_budget(origin) == state,
        state.mint_funds_result(who, minted) is Err ==> state.mint_funds(who, minted) == state,
{
}

/// Every operation of the election that succeeds leaves exactly one event, which
/// tells what it did, behind the events that were there.
pub proof fn law_success_leaves_one_event(
    state: State,
    origin: RuntimeOrigin,
    who: AccountId,
    department: Department,
    amount: Funds,
)
    ensures
        state.register_citizen_result(origin, who) is Ok ==> state.register_citizen(
            origin,
            who,
        ).events == state.events.push(Event::CitizenRegistered { who }),
        state.deregister_citizen_result(origin, who) is Ok ==> state.deregister_citizen(
            origin,
            who,
        ).events == state.events.push(Event::CitizenDeregistered { who }),
        state.vote_result(origin, department, amount) is Ok ==> state.vote(
            origin,
            department,
            amount,
        ).events == state.events.push(
            Event::CitizenVoted { who: origin->Signed_0, department, amount },
        ),
        state.open_budget_result(origin) is Ok ==> state.open_budget(origin).events
            == state.events.push(Event::BudgetOpen),
        state.close_budget_result(origin) is Ok ==> state.close_budget(origin).events
            == state.events.push(Event::BudgetClosed),
{
}

} // verus!
