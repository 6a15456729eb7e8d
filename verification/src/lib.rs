//! Quadratic-voting budget elections.
//!
//! Registered citizens are given voting credit when a budget election opens. While it
//! is open they commit funds to departments, each vote at the cost of the square of
//! what it commits. When the election is closed, after its deadline, what was committed
//! is minted into the accounts of the departments.
//!
//! [`Pallet`] is the state machine, [`State`] its mathematical model, and [`laws`]
//! holds what is proved of the model.

pub mod allocation;
pub mod balances;
pub mod credit;
pub mod department;
pub mod election;
pub mod error;
pub mod event;
pub mod laws;
pub mod origin;
pub mod pallet;
pub mod settlement;
pub mod state;
pub mod storage;

pub use crate::allocation::{Allocation, AllocationLedger, Funds};
pub use crate::balances::{Balance, NativeBalance};
pub use crate::credit::{credit_needed, CreditLedger, VotingCredit};
pub use crate::department::{
    department_accs_are_distinct, get_department_acc, Department,
};
pub use crate::election::{BlockNumber, BudgetId, BudgetInfo, ElectionState};
pub use crate::error::Error;
pub use crate::event::Event;
pub use crate::origin::{
    ensure_root, ensure_signed, ensure_signed_or_root, RawOrigin, RuntimeOrigin,
};
pub use crate::pallet::Pallet;
pub use crate::settlement::{drain_departments, settle};
pub use crate::state::{Config, State};
pub use crate::storage::{AccountId, StorageMap};
