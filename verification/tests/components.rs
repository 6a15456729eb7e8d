use pallet_voting::{
    department_accs_are_distinct, drain_departments, ensure_root, ensure_signed,
    ensure_signed_or_root, get_department_acc, settle,
    Allocation, AllocationLedger, BudgetInfo, CreditLedger, Department, ElectionState, Error,
    NativeBalance, Pallet, RawOrigin, RuntimeOrigin, StorageMap,
};

fn departments() -> Vec<Department> {
    vec![
        Department::Education,
        Department::Employment,
        Department::Healthcare,
        Department::Infrastructure,
        Department::Military,
        Department::Politics,
        Department::PublicGrants,
        Department::RepayingPublicDebt,
        Department::ScienceTech,
        Department::SocialSecurity,
    ]
}

fn account_of_digest(tag: u8) -> u64 {
    let digest = sp_crypto_hashing::blake2_256(&[tag]);
    let mut first = [0u8; 8];
    first.copy_from_slice(&digest[..8]);
    u64::from_le_bytes(first)
}

#[test]
fn departments_come_in_declaration_order() {
    assert_eq!(Department::all(), departments());
    for (position, department) in departments().into_iter().enumerate() {
        assert_eq!(department.index() as usize, position);
        assert_eq!(department.encode(), vec![position as u8]);
    }
}

#[test]
fn a_department_account_is_the_digest_of_its_tag() {
    for department in departments() {
        let account = get_department_acc(department);
        assert_eq!(account, account_of_digest(department.index()));
        assert_eq!(account, Pallet::get_department_acc(department));
        assert_ne!(account, department.index() as u64);
    }
    assert_eq!(get_department_acc(Department::Military), account_of_digest(4));
}

#[test]
fn department_accounts_are_distinct() {
    assert!(department_accs_are_distinct());
    let accounts: Vec<u64> = departments().into_iter().map(get_department_acc).collect();
    for i in 0..accounts.len() {
        for j in 0..i {
            assert_ne!(accounts[i], accounts[j]);
        }
    }
}

#[test]
fn origins_are_told_apart() {
    assert_eq!(
        RuntimeOrigin::from(RawOrigin::VotingSuccess),
        RuntimeOrigin::Voting(RawOrigin::VotingSuccess)
    );
    assert_eq!(ensure_root(RuntimeOrigin::root()), Ok(()));
    assert_eq!(ensure_root(RuntimeOrigin::signed(7)), Err(Error::BadOrigin));
    assert_eq!(ensure_root(RuntimeOrigin::none()), Err(Error::BadOrigin));
    assert_eq!(ensure_root(RuntimeOrigin::Voting(RawOrigin::VotingSuccess)), Err(Error::BadOrigin));

    assert_eq!(ensure_signed(RuntimeOrigin::signed(7)), Ok(7));
    assert_eq!(ensure_signed(RuntimeOrigin::root()), Err(Error::BadOrigin));
    assert_eq!(ensure_signed(RuntimeOrigin::none()), Err(Error::BadOrigin));
    assert_eq!(
        ensure_signed(RuntimeOrigin::Voting(RawOrigin::VotingSuccess)),
        Err(Error::BadOrigin)
    );

    assert_eq!(ensure_signed_or_root(RuntimeOrigin::root()), Ok(None));
    assert_eq!(ensure_signed_or_root(RuntimeOrigin::signed(7)), Ok(Some(7)));
    assert_eq!(ensure_signed_or_root(RuntimeOrigin::none()), Err(Error::BadOrigin));
    assert_eq!(
        ensure_signed_or_root(RuntimeOrigin::Voting(RawOrigin::VotingSuccess)),
        Err(Error::BadOrigin)
    );
}

#[test]
fn storage_map_keeps_one_value_for_each_key() {
    let mut map: StorageMap<u32> = StorageMap::new();
    assert_eq!(map.get(1), None);
    assert!(!map.contains_key(1));
    map.insert(1, 10);
    map.insert(2, 20);
    map.insert(1, 11);
    assert_eq!(map.get(1), Some(11));
    assert_eq!(map.get(2), Some(20));
    assert!(map.contains_key(2));
    let copy = map.duplicate();
    assert_eq!(copy, map);
    assert_eq!(map.remove(1), Some(11));
    assert_eq!(map.remove(1), None);
    assert_eq!(map.get(1), None);
    assert_eq!(copy.get(1), Some(11));
    map.insert(3, 30);
    map.fill(5);
    assert_eq!(map.get(2), Some(5));
    assert_eq!(map.get(3), Some(5));
    assert_eq!(map.get(1), None);
}

#[test]
fn credit_ledger_operations() {
    let mut ledger = CreditLedger::new();
    assert_eq!(ledger.get(1), None);
    assert_eq!(ledger.register(1), Ok(()));
    assert_eq!(ledger.get(1), Some(0));
    assert_eq!(ledger.register(1), Err(Error::CitizenAlreadyRegistered));
    assert_eq!(ledger.spend(2, 0), Err(Error::CitizenNotRegistered));
    assert_eq!(ledger.spend(1, 1), Err(Error::NotEnoughVotingCredit));
    assert_eq!(ledger.spend(1, 0), Ok(()));
    ledger.issue_credit(1, 100);
    assert_eq!(ledger.get(1), Some(100));
    assert_eq!(ledger.spend(1, 101), Err(Error::NotEnoughVotingCredit));
    assert_eq!(ledger.get(1), Some(100));
    assert_eq!(ledger.spend(1, 36), Ok(()));
    assert_eq!(ledger.get(1), Some(64));
    assert_eq!(ledger.spend(1, 64), Ok(()));
    assert_eq!(ledger.get(1), Some(0));
    assert_eq!(ledger.register(2), Ok(()));
    ledger.issue_credit_to_all(4096);
    assert_eq!(ledger.get(1), Some(4096));
    assert_eq!(ledger.get(2), Some(4096));
    assert_eq!(ledger.get(3), None);
    assert_eq!(ledger.deregister(3), Err(Error::CitizenNotRegistered));
    assert_eq!(ledger.deregister(1), Ok(()));
    assert_eq!(ledger.get(1), None);
    assert_eq!(ledger.get(2), Some(4096));
}

#[test]
fn allocation_ledger_operations() {
    let mut ledger = AllocationLedger::new();
    assert_eq!(ledger.get(Department::Military, 1), None);
    assert_eq!(ledger.record(Department::Military, 1, 20), Ok(()));
    assert_eq!(ledger.record(Department::Military, 2, 30), Ok(()));
    assert_eq!(ledger.record(Department::Politics, 1, 40), Ok(()));
    assert_eq!(ledger.record(Department::Military, 1, 50), Err(Error::AlreadyVotedDepartment));
    assert_eq!(ledger.get(Department::Military, 1), Some(20));
    assert_eq!(ledger.get(Department::Military, 2), Some(30));
    assert_eq!(ledger.get(Department::Politics, 1), Some(40));
    assert_eq!(ledger.get(Department::Politics, 2), None);
    let expected = vec![
        Allocation { department: Department::Military, citizen: 1, amount: 20 },
        Allocation { department: Department::Military, citizen: 2, amount: 30 },
        Allocation { department: Department::Politics, citizen: 1, amount: 40 },
    ];
    assert_eq!(ledger.iterate_all(), expected);
    assert_eq!(ledger.iterate_all(), expected);
    ledger.clear();
    assert_eq!(ledger.iterate_all(), vec![]);
    assert_eq!(ledger.record(Department::Military, 1, 50), Ok(()));
}

#[test]
fn election_state_operations() {
    let mut state = ElectionState::new();
    assert_eq!(state.current(), None);
    assert!(!state.is_past_deadline(0));
    assert!(!state.is_past_deadline(u64::MAX));
    state.close_round();
    assert_eq!(state.current(), None);

    state.open_round(1000, 1);
    assert_eq!(state.current(), Some(BudgetInfo { budget_id: 0, deadline: 1001, is_open: true }));
    assert!(!state.is_past_deadline(1000));
    assert!(state.is_past_deadline(1001));
    assert!(state.is_past_deadline(1002));
    state.close_round();
    assert_eq!(state.current(), Some(BudgetInfo { budget_id: 0, deadline: 1001, is_open: false }));
    assert!(state.is_past_deadline(1001));

    state.open_round(5, 2000);
    assert_eq!(state.current(), Some(BudgetInfo { budget_id: 1, deadline: 2005, is_open: true }));
    state.open_round(0, u64::MAX);
    assert_eq!(
        state.current(),
        Some(BudgetInfo { budget_id: 2, deadline: u64::MAX, is_open: true })
    );
}

#[test]
fn native_balance_operations() {
    let mut ledger = NativeBalance::new();
    assert_eq!(ledger.balance(9), 0);
    assert_eq!(ledger.mint_into(9, 5), Ok(()));
    assert_eq!(ledger.mint_into(9, 6), Ok(()));
    assert_eq!(ledger.balance(9), 11);
    assert_eq!(ledger.mint_into(9, u64::MAX - 10), Err(Error::MintOverflow));
    assert_eq!(ledger.balance(9), 11);
    assert_eq!(ledger.mint_into(9, u64::MAX - 11), Ok(()));
    assert_eq!(ledger.balance(9), u64::MAX);
    assert_eq!(ledger.mint_into(9, 0), Ok(()));
    let copy = ledger.duplicate();
    ledger.set_balance(9, 3);
    assert_eq!(ledger.balance(9), 3);
    assert_eq!(copy.balance(9), u64::MAX);
    assert_eq!(ledger.balance(8), 0);
}

#[test]
fn draining_empties_the_department_accounts_only() {
    let mut ledger = NativeBalance::new();
    let stranger = 12345;
    for department in departments() {
        assert_ne!(get_department_acc(department), stranger);
        assert_eq!(ledger.mint_into(get_department_acc(department), 10), Ok(()));
    }
    assert_eq!(ledger.mint_into(stranger, 10), Ok(()));
    drain_departments(&mut ledger);
    for department in departments() {
        assert_eq!(ledger.balance(get_department_acc(department)), 0);
    }
    assert_eq!(ledger.balance(stranger), 10);
}

#[test]
fn settling_is_all_or_nothing() {
    let education = get_department_acc(Department::Education);
    let military = get_department_acc(Department::Military);
    let mut ledger = NativeBalance::new();
    assert_eq!(ledger.mint_into(education, 1), Ok(()));
    let records = vec![
        Allocation { department: Department::Education, citizen: 1, amount: 30 },
        Allocation { department: Department::Military, citizen: 1, amount: 20 },
        Allocation { department: Department::Education, citizen: 2, amount: 12 },
    ];
    let settled = settle(&ledger, &records).expect("the balances are small");
    assert_eq!(settled.balance(education), 43);
    assert_eq!(settled.balance(military), 20);
    assert_eq!(ledger.balance(education), 1);
    assert_eq!(ledger.balance(military), 0);

    assert_eq!(settle(&ledger, &vec![]), Some(ledger.duplicate()));

    assert_eq!(ledger.mint_into(military, u64::MAX - 19), Ok(()));
    assert_eq!(settle(&ledger, &records), None);
    ledger.set_balance(military, u64::MAX - 20);
    let settled = settle(&ledger, &records).expect("the last unit fits");
    assert_eq!(settled.balance(military), u64::MAX);
}
