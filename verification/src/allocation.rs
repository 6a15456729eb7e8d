//! The allocation ledger: what each citizen has committed to each department in the
//! round that is open.

use crate::department::{spec_department_accs_are_distinct, spec_department_acc, Department};
use crate::error::Error;
use crate::storage::AccountId;
use vstd::prelude::*;

verus! {

/// How much capital is allocated to a department.
pub type Funds = u32;

/// The funds that one citizen has committed to one department.
#[derive(Debug, Copy, Clone, PartialEq, Eq, Structural)]
pub struct Allocation {
    pub department: Department,
    pub citizen: AccountId,
    pub amount: Funds,
}

/// Whether `records` hold an allocation of `citizen` to `department`.
pub open spec fn funded(
    records: Seq<Allocation>,
    department: Department,
    citizen: AccountId,
) -> bool {
    exists|i: int|
        0 <= i < records.len() && (#[trigger] records[i]).department == department
            && records[i].citizen == citizen
}

/// No citizen has two allocations to one department among `records`.
pub open spec fn one_vote_per_department(records: Seq<Allocation>) -> bool {
    forall|i: int, j: int|
        0 <= i < j < records.len() ==> !((#[trigger] records[i]).department == (
        #[trigger] records[j]).department && records[i].citizen == records[j].citizen)
}

/// The funds that `citizen` has committed to `department` among `records`: those of the
/// first such allocation, if there is one.
pub open spec fn allocated(
    records: Seq<Allocation>,
    department: Department,
    citizen: AccountId,
) -> Option<Funds>
    decreases records.len(),
{
    if records.len() == 0 {
        None
    } else if records[0].department == department && records[0].citizen == citizen {
        Some(records[0].amount)
    } else {
        allocated(records.drop_first(), department, citizen)
    }
}

/// The sum of the funds that `records` commit to the departments whose account is
/// `account`.
pub open spec fn funds_owed(records: Seq<Allocation>, account: AccountId) -> nat
    decreases records.len(),
{
    if records.len() == 0 {
        0
    } else {
        funds_owed(records.drop_last(), account) + if spec_department_acc(
            records.last().department,
        ) == account {
            records.last().amount as nat
        } else {
            0
        }
    }
}

/// The sum of the funds that `records` commit to `department`.
pub open spec fn funds_allocated(records: Seq<Allocation>, department: Department) -> nat
    decreases records.len(),
{
    if records.len() == 0 {
        0
    } else {
        funds_allocated(records.drop_last(), department) + if records.last().department
            == department {
            records.last().amount as nat
        } else {
            0
        }
    }
}

/// Where no two departments share an account, what is owed to the account of a
/// department is what was committed to that department.
pub proof fn lemma_funds_owed_to_department(records: Seq<Allocation>, department: Department)
    requires
        spec_department_accs_are_distinct(),
    ensures
        funds_owed(records, spec_department_acc(department)) == funds_allocated(
            records,
            department,
        ),
    decreases records.len(),
{
    if records.len() > 0 {
        lemma_funds_owed_to_department(records.drop_last(), department);
    }
}

/// A department is funded exactly when an amount is allocated to it.
pub proof fn lemma_allocated_iff_funded(
    records: Seq<Allocation>,
    department: Department,
    citizen: AccountId,
)
    ensures
        allocated(records, department, citizen) is Some <==> funded(records, department, citizen),
    decreases records.len(),
{
    if records.len() > 0 {
        let rest = records.drop_first();
        lemma_allocated_iff_funded(rest, department, citizen);
        if funded(rest, department, citizen) {
            let i = choose|i: int|
                0 <= i < rest.len() && (#[trigger] rest[i]).department == department
                    && rest[i].citizen == citizen;
            assert(records[i + 1] == rest[i]);
        }
        if funded(records, department, citizen) && !(records[0].department == department
            && records[0].citizen == citizen) {
            let i = choose|i: int|
                0 <= i < records.len() && (#[trigger] records[i]).department == department
                    && records[i].citizen == citizen;
            assert(rest[i - 1] == records[i]);
        }
    }
}

/// An allocation that is appended is found again, and changes no other.
pub proof fn lemma_allocated_after_push(
    records: Seq<Allocation>,
    new: Allocation,
    department: Department,
    citizen: AccountId,
)
    ensures
        allocated(records.push(new), department, citizen) == if allocated(
            records,
            department,
            citizen,
        ) is Some {
            allocated(records, department, citizen)
        } else if new.department == department && new.citizen == citizen {
            Some(new.amount)
        } else {
            None
        },
    decreases records.len(),
{
    let after = records.push(new);
    if records.len() == 0 {
        assert(after.drop_first() =~= records);
    } else {
        assert(after.drop_first() =~= records.drop_first().push(new));
        lemma_allocated_after_push(records.drop_first(), new, department, citizen);
    }
}

/// The funds owed to an account only grow as allocations are added.
pub proof fn lemma_funds_owed_grows(records: Seq<Allocation>, n: int, account: AccountId)
    requires
        0 <= n <= records.len(),
    ensures
        funds_owed(records.take(n), account) <= funds_owed(records, account),
    decreases records.len() - n,
{
    if n < records.len() {
        lemma_funds_owed_grows(records, n + 1, account);
        assert(records.take(n + 1).drop_last() =~= records.take(n));
    } else {
        assert(records.take(n) =~= records);
    }
}

/// The allocations of the round that is open, in the order in which they were made. The
/// model is that sequence.
#[derive(Clone, Debug, PartialEq, Eq)]
pub struct AllocationLedger {
    records: Vec<Allocation>,
}

impl View for AllocationLedger {
    type V = Seq<Allocation>;

    closed spec fn view(&self) -> Seq<Allocation> {
        self.records@
    }
}

impl AllocationLedger {
    /// The invariant of the type: no citizen has two allocations to one department.
    pub open spec fn wf(&self) -> bool {
        one_vote_per_department(self@)
    }

    /// A ledger without allocations.
    pub fn new() -> (ledger: Self)
        ensures
            ledger.wf(),
            ledger@ == Seq::<Allocation>::empty(),
    {
        AllocationLedger { records: Vec::new() }
    }

    /// The funds that `citizen` has committed to `department`, if any.
    pub fn get(&self, department: Department, citizen: AccountId) -> (amount: Option<Funds>)
        ensures
            amount == allocated(self@, department, citizen),
    {
        let mut i: usize = 0;
        assert(self.records@.skip(0) =~= self.records@);
        while i < self.records.len()
            invariant
                i <= self.records@.len(),
                allocated(self.records@, department, citizen) == allocated(
                    self.records@.skip(i as int),
                    department,
                    citizen,
                ),
            decreases self.records@.len() - i,
        {
            let record = self.records[i];
            proof {
                assert(self.records@.skip(i as int)[0] == record);
                assert(self.records@.skip(i as int).drop_first() =~= self.records@.skip(i + 1));
            }
            if record.department == department && record.citizen == citizen {
                return Some(record.amount);
            }
            i += 1;
        }
        None
    }

    /// Records that `citizen` commits `amount` to `department`. Fails if they have
    /// committed funds to that department before.
    pub fn record(&mut self, department: Department, citizen: AccountId, amount: Funds) -> (result:
        Result<(), Error>)
        requires
            old(self).wf(),
        ensures
            final(self).wf(),
            result == if allocated(old(self)@, department, citizen) is Some {
                Err::<(), Error>(Error::AlreadyVotedDepartment)
            } else {
                Ok::<(), Error>(())
            },
            final(self)@ == if allocated(old(self)@, department, citizen) is Some {
                old(self)@
            } else {
                old(self)@.push(Allocation { department, citizen, amount })
            },
    {
        proof {
            lemma_allocated_iff_funded(self@, department, citizen);
        }
        if self.get(department, citizen).is_some() {
            return Err(Error::AlreadyVotedDepartment);
        }
        self.records.push(Allocation { department, citizen, amount });
        Ok(())
    }

    /// All allocations, in the order in which they were made.
    pub fn iterate_all(&self) -> (records: Vec<Allocation>)
        ensures
            records@ == self@,
    {
        let mut records: Vec<Allocation> = Vec::new();
        let mut i: usize = 0;
        while i < self.records.len()
            invariant
                i <= self.records@.len(),
                records@ == self.records@.take(i as int),
            decreases self.records@.len() - i,
        {
            records.push(self.records[i]);
            proof {
                assert(self.records@.take(i + 1) =~= self.records@.take(i as int).push(
                    self.records@[i as int],
                ));
            }
            i += 1;
        }
        proof {
            assert(self.records@.take(self.records@.len() as int) =~= self.records@);
        }
        records
    }

    /// Forgets all allocations.
    pub fn clear(&mut self)
        ensures
            final(self).wf(),
            final(self)@ == Seq::<Allocation>::empty(),
    {
        self.records.clear();
    }
}

} // verus!
