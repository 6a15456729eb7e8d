//! The notifications that successful operations leave behind.

use crate::allocation::Funds;
use crate::department::Department;
use crate::storage::AccountId;
use vstd::prelude::*;

verus! {

/// What a successful operation did.
#[derive(Debug, Copy, Clone, PartialEq, Eq, Structural)]
pub enum Event {
    /// A budget election has been closed.
    BudgetClosed,
    /// A budget election has been opened.
    BudgetOpen,
    /// A citizen has been deregistered from the system.
    CitizenDeregistered { who: AccountId },
    /// A new citizen has been registered to vote.
    CitizenRegistered { who: AccountId },
    /// A citizen has successfully funded a department.
    CitizenVoted { who: AccountId, department: Department, amount: Funds },
}

} // verus!
