//! Settlement: how the accounts of the departments are emptied when a round opens, and
//! filled from the allocations when it closes.

use crate::allocation::{funds_owed, lemma_funds_owed_grows, Allocation};
use crate::balances::{Balance, NativeBalance};
use crate::department::{get_department_acc, spec_department_acc, Department};
use crate::storage::AccountId;
use vstd::prelude::*;

verus! {

/// Whether `account` is the account of a department.
pub open spec fn is_department_acc(account: AccountId) -> bool {
    exists|department: Department| spec_department_acc(department) == account
}

/// The balances after the accounts of all departments were emptied.
pub open spec fn drained(balances: Map<AccountId, Balance>) -> Map<AccountId, Balance> {
    Map::total(
        |account: AccountId|
            if is_department_acc(account) {
                0
            } else {
                balances[account]
            },
    )
}

/// Whether every account can take what `records` commit to it on top of its balance.
pub open spec fn can_settle(balances: Map<AccountId, Balance>, records: Seq<Allocation>) -> bool {
    forall|account: AccountId|
        balances[account] + #[trigger] funds_owed(records, account) <= Balance::MAX
}

/// The balances after every account was given what `records` commit to it.
pub open spec fn settled(balances: Map<AccountId, Balance>, records: Seq<Allocation>) -> Map<
    AccountId,
    Balance,
> {
    Map::total(|account: AccountId| (balances[account] + funds_owed(records, account)) as Balance)
}

/// Whether `account` is the account of one of the first `n` departments.
spec fn among_first(n: int, account: AccountId) -> bool {
    exists|j: int|
        0 <= j < n && spec_department_acc(#[trigger] Department::spec_all()[j]) == account
}

/// The balances after the accounts of the first `n` departments were emptied.
spec fn drained_first(balances: Map<AccountId, Balance>, n: int) -> Map<AccountId, Balance> {
    Map::total(
        |account: AccountId|
            if among_first(n, account) {
                0
            } else {
                balances[account]
            },
    )
}

proof fn lemma_among_first_step(n: int, account: AccountId)
    requires
        0 <= n < 10,
    ensures
        among_first(n + 1, account) <==> among_first(n, account) || spec_department_acc(
            Department::spec_all()[n],
        ) == account,
{
    if among_first(n, account) {
        let j = choose|j: int|
            0 <= j < n && spec_department_acc(#[trigger] Department::spec_all()[j]) == account;
        assert(0 <= j < n + 1);
    }
    if spec_department_acc(Department::spec_all()[n]) == account {
        assert(among_first(n + 1, account));
    }
}

proof fn lemma_among_all(account: AccountId)
    ensures
        among_first(10, account) <==> is_department_acc(account),
{
    if is_department_acc(account) {
        let department = choose|department: Department|
            spec_department_acc(department) == account;
        department.lemma_all_is_complete();
        assert(spec_department_acc(Department::spec_all()[department.spec_index() as int])
            == account);
    }
}

/// Empties the account of every department.
pub fn drain_departments(balances: &mut NativeBalance)
    requires
        old(balances).wf(),
    ensures
        final(balances).wf(),
        final(balances)@ == drained(old(balances)@),
{
    let departments = Department::all();
    let mut i: usize = 0;
    proof {
        old(balances).lemma_view_is_total();
        assert(balances@ =~= drained_first(old(balances)@, 0));
    }
    while i < departments.len()
        invariant
            departments@ == Department::spec_all(),
            departments@.len() == 10,
            i <= 10,
            balances.wf(),
            balances@ == drained_first(old(balances)@, i as int),
        decreases 10 - i,
    {
        let account = get_department_acc(departments[i]);
        balances.set_balance(account, 0);
        proof {
            assert forall|a: AccountId| #[trigger]
                balances@[a] == drained_first(old(balances)@, i + 1)[a] by {
                lemma_among_first_step(i as int, a);
            }
            assert(balances@ =~= drained_first(old(balances)@, i + 1));
        }
        i += 1;
    }
    proof {
        assert forall|a: AccountId| #[trigger] balances@[a] == drained(old(balances)@)[a] by {
            lemma_among_all(a);
        }
        assert(balances@ =~= drained(old(balances)@));
    }
}

/// Gives every account what `records` commit to it, on a copy of `balances`. Gives no
/// ledger if that would raise a balance above the largest one.
pub fn settle(balances: &NativeBalance, records: &Vec<Allocation>) -> (staged: Option<
    NativeBalance,
>)
    requires
        balances.wf(),
    ensures
        staged is Some <==> can_settle(balances@, records@),
        staged matches Some(ledger) ==> ledger.wf() && ledger@ == settled(balances@, records@),
{
    let mut ledger = balances.duplicate();
    let mut i: usize = 0;
    proof {
        balances.lemma_view_is_total();
        assert(records@.take(0) =~= Seq::<Allocation>::empty());
        assert(ledger@ =~= settled(balances@, records@.take(0)));
    }
    while i < records.len()
        invariant
            i <= records@.len(),
            ledger.wf(),
            ledger@ == settled(balances@, records@.take(i as int)),
            can_settle(balances@, records@.take(i as int)),
        decreases records@.len() - i,
    {
        let record = records[i];
        let account = get_department_acc(record.department);
        let ghost before = ledger@;
        proof {
            assert(records@.take(i + 1).drop_last() =~= records@.take(i as int));
            assert(records@.take(i + 1).last() == record);
            assert(before[account] == balances@[account] + funds_owed(
                records@.take(i as int),
                account,
            ));
        }
        match ledger.mint_into(account, record.amount as Balance) {
            Ok(_) => {},
            Err(_) => {
                proof {
                    lemma_funds_owed_grows(records@, i + 1, account);
                    assert(balances@[account] + funds_owed(records@, account) > Balance::MAX);
                }
                return None;
            },
        }
        proof {
            assert forall|a: AccountId|
                balances@[a] + #[trigger] funds_owed(records@.take(i + 1), a)
                    <= Balance::MAX by {
                assert(balances@[a] + funds_owed(records@.take(i as int), a) <= Balance::MAX);
            }
            assert(ledger@ =~= settled(balances@, records@.take(i + 1)));
        }
        i += 1;
    }
    proof {
        assert(records@.take(records@.len() as int) =~= records@);
    }
    Some(ledger)
}

} // verus!
