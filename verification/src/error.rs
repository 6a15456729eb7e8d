//! The reasons for which an operation is rejected.

use vstd::prelude::*;

verus! {

/// Why an operation was rejected. A rejected operation changes nothing.
#[derive(Debug, Copy, Clone, PartialEq, Eq, Structural)]
pub enum Error {
    /// A citizen is attempting to fund a department they have already voted for before.
    AlreadyVotedDepartment,
    /// The root is trying to open the budget when it is already open.
    BudgetAlreadyOpen,
    /// A citizen is trying to vote, or someone is attempting to close a budget election,
    /// when this is already closed or does not exist.
    BudgetIsClosed,
    /// Someone is attempting to close the budget before it is due.
    CannotCloseBeforeDeadline,
    /// A citizen is trying to vote past the deadline.
    CannotVotePastDeadline,
    /// The root is trying to register a citizen that had been previously registered. They
    /// need to be deregistered first.
    CitizenAlreadyRegistered,
    /// A citizen is trying to cast their vote or is to be removed, but is not registered.
    CitizenNotRegistered,
    /// A citizen is trying to vote but does not have enough voting credit left for that
    /// funding.
    NotEnoughVotingCredit,
    /// The caller is not of the kind that the operation asks for.
    BadOrigin,
    /// Minting would raise the balance of an account above the largest balance.
    MintOverflow,
}

} // verus!
