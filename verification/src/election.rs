//! The election state: the round that is open, or that was closed last.

use vstd::prelude::*;

verus! {

/// The number of a budget election.
pub type BudgetId = u32;

/// A point on the logical clock.
pub type BlockNumber = u64;

/// The information regarding a budget election.
#[derive(Debug, Copy, Clone, PartialEq, Eq, Structural)]
pub struct BudgetInfo {
    pub budget_id: BudgetId,
    /// The block from which on nobody can vote and anybody can close the election.
    pub deadline: BlockNumber,
    /// The current state of the budget election.
    pub is_open: bool,
}

/// The number of the election that follows `current`: one more, or 0 for the first.
pub open spec fn next_budget_id(current: Option<BudgetInfo>) -> int {
    match current {
        Some(info) => info.budget_id + 1,
        None => 0,
    }
}

/// The election that `open_round` puts in the place of `current`.
pub open spec fn opened(
    current: Option<BudgetInfo>,
    lifetime: u32,
    now: BlockNumber,
) -> BudgetInfo {
    BudgetInfo {
        budget_id: next_budget_id(current) as BudgetId,
        deadline: (now + lifetime) as BlockNumber,
        is_open: true,
    }
}

/// What `close_round` puts in the place of `current`: the same election, closed.
pub open spec fn closed(current: Option<BudgetInfo>) -> Option<BudgetInfo> {
    match current {
        Some(info) => Some(
            BudgetInfo { budget_id: info.budget_id, deadline: info.deadline, is_open: false },
        ),
        None => None,
    }
}

/// Whether an election exists and is open.
pub open spec fn is_open(current: Option<BudgetInfo>) -> bool {
    match current {
        Some(info) => info.is_open,
        None => false,
    }
}

/// Whether an election exists and its deadline is reached at `now`.
pub open spec fn past_deadline(current: Option<BudgetInfo>, now: BlockNumber) -> bool {
    match current {
        Some(info) => now >= info.deadline,
        None => false,
    }
}

/// The election that is open or was closed last, if there ever was one. The model is
/// that election's information, or `None`.
#[derive(Debug, Copy, Clone, PartialEq, Eq)]
pub struct ElectionState {
    current: Option<BudgetInfo>,
}

impl View for ElectionState {
    type V = Option<BudgetInfo>;

    closed spec fn view(&self) -> Option<BudgetInfo> {
        self.current
    }
}

impl ElectionState {
    /// The state before the first election.
    pub fn new() -> (state: Self)
        ensures
            state@ == None::<BudgetInfo>,
    {
        ElectionState { current: None }
    }

    /// The election that is open or was closed last.
    pub fn current(&self) -> (info: Option<BudgetInfo>)
        ensures
            info == self@,
    {
        self.current
    }

    /// Opens the next election at `now`, with its deadline `lifetime` blocks later. The
    /// caller sees to it that no election is open.
    pub fn open_round(&mut self, lifetime: u32, now: BlockNumber)
        requires
            next_budget_id(old(self)@) <= BudgetId::MAX,
            now + lifetime <= BlockNumber::MAX,
        ensures
            final(self)@ == Some(opened(old(self)@, lifetime, now)),
    {
        let budget_id: BudgetId = match self.current {
            Some(info) => info.budget_id + 1,
            None => 0,
        };
        let deadline: BlockNumber = now + lifetime as BlockNumber;
        self.current = Some(BudgetInfo { budget_id, deadline, is_open: true });
    }

    /// Closes the election, which keeps its number and its deadline.
    pub fn close_round(&mut self)
        ensures
            final(self)@ == closed(old(self)@),
    {
        match self.current {
            Some(info) => {
                self.current = Some(
                    BudgetInfo {
                        budget_id: info.budget_id,
                        deadline: info.deadline,
                        is_open: false,
                    },
                );
            },
            None => {},
        }
    }

    /// Whether an election exists and its deadline is reached at `now`.
    pub fn is_past_deadline(&self, now: BlockNumber) -> (past: bool)
        ensures
            past == past_deadline(self@, now),
    {
        match self.current {
            Some(info) => now >= info.deadline,
            None => false,
        }
    }
}

} // verus!
