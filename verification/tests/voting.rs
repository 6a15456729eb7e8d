use pallet_voting::{Config, Department, Error, Event, Pallet, RuntimeOrigin};

fn new_test_ext() -> Pallet {
    Pallet::new(Config { given_voting_credit: 4096, budget_lifetime: 1000 })
}

fn assert_ok(result: Result<(), Error>) {
    assert_eq!(result, Ok(()));
}

fn assert_noop(
    voting: &mut Pallet,
    call: impl FnOnce(&mut Pallet) -> Result<(), Error>,
    expected: Error,
) {
    let before = voting.clone();
    assert_eq!(call(voting), Err(expected));
    assert_eq!(*voting, before);
}

#[test]
fn citizen_registration_and_voting() {
    let mut voting = new_test_ext();
    voting.set_block_number(1);

    // Register citizen 1
    assert_ok(voting.register_citizen(RuntimeOrigin::root(), 1));
    assert_eq!(voting.last_event(), Some(Event::CitizenRegistered { who: 1 }));

    // Open a budget election
    assert_ok(voting.open_budget(RuntimeOrigin::root()));
    assert_eq!(voting.last_event(), Some(Event::BudgetOpen));

    // Citizen 1 should now be able to vote
    assert_ok(voting.vote(RuntimeOrigin::signed(1), Department::Military, 10));
    assert_eq!(
        voting.last_event(),
        Some(Event::CitizenVoted { who: 1, department: Department::Military, amount: 10 })
    );

    // Attempt to re-register citizen 1
    assert_noop(
        &mut voting,
        |v| v.register_citizen(RuntimeOrigin::root(), 1),
        Error::CitizenAlreadyRegistered,
    );

    // Deregister citizen 1
    assert_ok(voting.deregister_citizen(RuntimeOrigin::root(), 1));
    assert_eq!(voting.last_event(), Some(Event::CitizenDeregistered { who: 1 }));

    // Citizen 1 cannot vote after being deregistered
    assert_noop(
        &mut voting,
        |v| v.vote(RuntimeOrigin::signed(1), Department::Military, 10),
        Error::CitizenNotRegistered,
    );
}

#[test]
fn multiple_citizen_registration_and_voting() {
    let mut voting = new_test_ext();
    voting.set_block_number(1);

    assert_ok(voting.register_citizen(RuntimeOrigin::root(), 1));
    assert_eq!(voting.last_event(), Some(Event::CitizenRegistered { who: 1 }));
    assert_ok(voting.register_citizen(RuntimeOrigin::root(), 2));
    assert_eq!(voting.last_event(), Some(Event::CitizenRegistered { who: 2 }));

    assert_ok(voting.open_budget(RuntimeOrigin::root()));
    assert_eq!(voting.last_event(), Some(Event::BudgetOpen));

    // Register citizen 3 after the budget is open (will have no funds)
    assert_ok(voting.register_citizen(RuntimeOrigin::root(), 3));
    assert_eq!(voting.last_event(), Some(Event::CitizenRegistered { who: 3 }));

    assert_ok(voting.vote(RuntimeOrigin::signed(1), Department::Military, 10));
    assert_eq!(
        voting.last_event(),
        Some(Event::CitizenVoted { who: 1, department: Department::Military, amount: 10 })
    );
    assert_ok(voting.vote(RuntimeOrigin::signed(2), Department::Infrastructure, 20));
    assert_eq!(
        voting.last_event(),
        Some(Event::CitizenVoted { who: 2, department: Department::Infrastructure, amount: 20 })
    );
    assert_noop(
        &mut voting,
        |v| v.vote(RuntimeOrigin::signed(3), Department::Education, 30),
        Error::NotEnoughVotingCredit,
    );
}

#[test]
fn quadratic_voting() {
    let mut voting = new_test_ext();
    voting.set_block_number(1);

    // Register citizen 1
    assert_ok(voting.register_citizen(RuntimeOrigin::root(), 1));
    assert_eq!(voting.get_citizen_voting_credit(&1), Some(0));
    assert_ok(voting.open_budget(RuntimeOrigin::root()));

    // After budget opening, their voting credit should be 4096
    assert_eq!(voting.get_citizen_voting_credit(&1), Some(4096));

    // Fund the military with 20 tokens
    assert_ok(voting.vote(RuntimeOrigin::signed(1), Department::Military, 20));
    assert_eq!(
        voting.last_event(),
        Some(Event::CitizenVoted { who: 1, department: Department::Military, amount: 20 })
    );

    // Citizen 1's voting credit should be 4096 - 20^2 = 3696
    assert_eq!(voting.get_citizen_voting_credit(&1), Some(3696));

    // Fund Education with 30 tokens (2796 left)
    assert_ok(voting.vote(RuntimeOrigin::signed(1), Department::Education, 30));
    assert_eq!(voting.get_citizen_voting_credit(&1), Some(2796));
    assert_eq!(voting.budget_distribution(Department::Education, 1), Some(30));

    // Fund Politics with 10 tokens (2696 left)
    assert_ok(voting.vote(RuntimeOrigin::signed(1), Department::Politics, 10));
    assert_eq!(voting.get_citizen_voting_credit(&1), Some(2696));
    assert_eq!(voting.budget_distribution(Department::Politics, 1), Some(10));

    // Attempt to fund politics again (should not be able to fund a department twice)
    assert_noop(
        &mut voting,
        |v| v.vote(RuntimeOrigin::signed(1), Department::Politics, 10),
        Error::AlreadyVotedDepartment,
    );
    assert_eq!(voting.get_citizen_voting_credit(&1), Some(2696));
    assert_eq!(voting.budget_distribution(Department::Politics, 1), Some(10));

    // Fund Healthcare with 50 tokens (196 left)
    assert_ok(voting.vote(RuntimeOrigin::signed(1), Department::Healthcare, 50));
    assert_eq!(voting.get_citizen_voting_credit(&1), Some(196));
    assert_eq!(voting.budget_distribution(Department::Healthcare, 1), Some(50));

    // Attempt to fund with 15 tokens (not enough, 196 left)
    assert_noop(
        &mut voting,
        |v| v.vote(RuntimeOrigin::signed(1), Department::Infrastructure, 15),
        Error::NotEnoughVotingCredit,
    );
    assert_eq!(voting.get_citizen_voting_credit(&1), Some(196));
    assert_eq!(voting.budget_distribution(Department::Infrastructure, 1), None);
}

#[test]
fn opening_and_closing_budget() {
    let mut voting = new_test_ext();
    voting.set_block_number(1);

    assert_ok(voting.register_citizen(RuntimeOrigin::root(), 1));
    assert_eq!(voting.get_citizen_voting_credit(&1), Some(0));

    // Root successfully opens budget
    assert_ok(voting.open_budget(RuntimeOrigin::root()));
    assert_eq!(voting.last_event(), Some(Event::BudgetOpen));

    // Root should fail to open the budget again
    assert_noop(&mut voting, |v| v.open_budget(RuntimeOrigin::root()), Error::BudgetAlreadyOpen);

    // Citizen 1 balance is now 4096
    assert_eq!(voting.get_citizen_voting_credit(&1), Some(4096));

    // Voting
    assert_ok(voting.vote(RuntimeOrigin::signed(1), Department::Education, 30));
    assert_ok(voting.vote(RuntimeOrigin::signed(1), Department::Politics, 10));
    assert_ok(voting.vote(RuntimeOrigin::signed(1), Department::Healthcare, 50));
    assert_eq!(voting.get_citizen_voting_credit(&1), Some(596));

    voting.set_block_number(500);
    assert_noop(
        &mut voting,
        |v| v.close_budget(RuntimeOrigin::signed(1)),
        Error::CannotCloseBeforeDeadline,
    );
    assert_noop(
        &mut voting,
        |v| v.close_budget(RuntimeOrigin::root()),
        Error::CannotCloseBeforeDeadline,
    );

    voting.set_block_number(1000);
    assert_noop(
        &mut voting,
        |v| v.close_budget(RuntimeOrigin::signed(1)),
        Error::CannotCloseBeforeDeadline,
    );

    // past deadline
    voting.set_block_number(1001);

    assert_noop(
        &mut voting,
        |v| v.vote(RuntimeOrigin::signed(1), Department::Employment, 10),
        Error::CannotVotePastDeadline,
    );

    assert_ok(voting.close_budget(RuntimeOrigin::signed(1)));
    assert_eq!(voting.last_event(), Some(Event::BudgetClosed));

    // Attempt to close again
    assert_noop(&mut voting, |v| v.close_budget(RuntimeOrigin::signed(1)), Error::BudgetIsClosed);

    assert_eq!(voting.balance_of(Department::Education), 30);
    assert_eq!(voting.balance_of(Department::Politics), 10);
    assert_eq!(voting.balance_of(Department::Healthcare), 50);
}
