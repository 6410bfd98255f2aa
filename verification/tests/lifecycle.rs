use std::collections::HashMap;

use crowdfund::{Action, Address, CrowdfundContract, Env, Error, ContractError, Abort};

/// Balances of the campaign asset, kept as a host would keep them.
struct Bank {
    balances: HashMap<String, i128>,
    escrow: i128,
}

impl Bank {
    fn new() -> Bank {
        Bank { balances: HashMap::new(), escrow: 0 }
    }

    fn mint(&mut self, to: &Address, amount: i128) {
        *self.balances.entry(to.as_str().to_string()).or_insert(0) += amount;
    }

    fn balance(&self, of: &Address) -> i128 {
        *self.balances.get(of.as_str()).unwrap_or(&0)
    }

    /// Carries out the transfers among `actions`, in order.
    fn perform(&mut self, actions: &[Action]) {
        for action in actions {
            match action {
                Action::Deposit { from, amount, .. } => {
                    assert!(*amount >= 0);
                    assert!(self.balance(from) >= *amount, "insufficient balance");
                    *self.balances.get_mut(from.as_str()).unwrap() -= *amount;
                    self.escrow += *amount;
                }
                Action::Payment { to, amount, .. } => {
                    assert!(*amount >= 0);
                    assert!(self.escrow >= *amount, "escrow overdrawn");
                    self.escrow -= *amount;
                    self.mint(to, *amount);
                }
                Action::Mint { .. } | Action::Publish { .. } => {}
            }
        }
    }
}

/// A fresh campaign contract, a host clock at 0 on which everyone named has
/// consented, and a bank in which the creator holds 10,000,000.
fn setup_env() -> (Env, CrowdfundContract, Address, Address, Bank) {
    let creator = Address::new("GCREATOR");
    let token_address = Address::new("CTOKEN");
    let mut env = Env::new(0);
    env.authorize(&creator);
    let mut bank = Bank::new();
    bank.mint(&creator, 10_000_000);
    (env, CrowdfundContract::new(), creator, token_address, bank)
}

fn generate(env: &mut Env, name: &str) -> Address {
    let address = Address::new(name);
    env.authorize(&address);
    address
}

#[test]
fn test_initialize() {
    let (env, mut client, creator, token_address, _bank) = setup_env();

    let deadline = env.timestamp() + 3600;
    let goal: i128 = 1_000_000;
    let min_contribution: i128 = 1_000;

    client
        .initialize(&env, creator, token_address, goal, deadline, min_contribution, None)
        .unwrap();

    assert_eq!(client.goal(), goal);
    assert_eq!(client.deadline(), deadline);
    assert_eq!(client.min_contribution(), min_contribution);
    assert_eq!(client.total_raised(), 0);
}

#[test]
fn test_contribute() {
    let (mut env, mut client, creator, token_address, mut bank) = setup_env();

    let deadline = env.timestamp() + 3600;
    let goal: i128 = 1_000_000;
    let min_contribution: i128 = 1_000;
    client
        .initialize(&env, creator, token_address, goal, deadline, min_contribution, None)
        .unwrap();

    let contributor = generate(&mut env, "GALICE");
    bank.mint(&contributor, 500_000);

    let actions = client.contribute(&env, &contributor, 500_000).unwrap();
    bank.perform(&actions);

    assert_eq!(client.total_raised(), 500_000);
    assert_eq!(client.contribution(&contributor), 500_000);
}

#[test]
fn test_multiple_contributions() {
    let (mut env, mut client, creator, token_address, mut bank) = setup_env();

    let deadline = env.timestamp() + 3600;
    let goal: i128 = 1_000_000;
    let min_contribution: i128 = 1_000;
    client
        .initialize(&env, creator, token_address, goal, deadline, min_contribution, None)
        .unwrap();

    let alice = generate(&mut env, "GALICE");
    let bob = generate(&mut env, "GBOB");
    bank.mint(&alice, 600_000);
    bank.mint(&bob, 400_000);

    bank.perform(&client.contribute(&env, &alice, 600_000).unwrap());
    bank.perform(&client.contribute(&env, &bob, 400_000).unwrap());

    assert_eq!(client.total_raised(), 1_000_000);
    assert_eq!(client.contribution(&alice), 600_000);
    assert_eq!(client.contribution(&bob), 400_000);
}

#[test]
fn test_withdraw_after_goal_met() {
    let (mut env, mut client, creator, token_address, mut bank) = setup_env();

    let deadline = env.timestamp() + 3600;
    let goal: i128 = 1_000_000;
    let min_contribution: i128 = 1_000;
    client
        .initialize(&env, creator.clone(), token_address, goal, deadline, min_contribution, None)
        .unwrap();

    let contributor = generate(&mut env, "GALICE");
    bank.mint(&contributor, 1_000_000);
    bank.perform(&client.contribute(&env, &contributor, 1_000_000).unwrap());

    assert_eq!(client.total_raised(), goal);

    env.set_timestamp(deadline + 1);

    bank.perform(&client.withdraw(&env).unwrap());

    assert_eq!(client.total_raised(), 0);
    assert_eq!(bank.balance(&creator), 10_000_000 + 1_000_000);
}

#[test]
fn test_refund_when_goal_not_met() {
    let (mut env, mut client, creator, token_address, mut bank) = setup_env();

    let deadline = env.timestamp() + 3600;
    let goal: i128 = 1_000_000;
    let min_contribution: i128 = 1_000;
    client
        .initialize(&env, creator, token_address, goal, deadline, min_contribution, None)
        .unwrap();

    let alice = generate(&mut env, "GALICE");
    let bob = generate(&mut env, "GBOB");
    bank.mint(&alice, 300_000);
    bank.mint(&bob, 200_000);

    bank.perform(&client.contribute(&env, &alice, 300_000).unwrap());
    bank.perform(&client.contribute(&env, &bob, 200_000).unwrap());

    env.set_timestamp(deadline + 1);

    bank.perform(&client.refund_single(&env, &alice).unwrap());
    bank.perform(&client.refund_single(&env, &bob).unwrap());

    assert_eq!(bank.balance(&alice), 300_000);
    assert_eq!(bank.balance(&bob), 200_000);
    assert_eq!(client.total_raised(), 0);
}

#[test]
fn test_contribute_exact_minimum() {
    let (mut env, mut client, creator, token_address, mut bank) = setup_env();

    let deadline = env.timestamp() + 3600;
    let goal: i128 = 1_000_000;
    let min_contribution: i128 = 10_000;
    client
        .initialize(&env, creator, token_address, goal, deadline, min_contribution, None)
        .unwrap();

    let contributor = generate(&mut env, "GALICE");
    bank.mint(&contributor, 10_000);

    bank.perform(&client.contribute(&env, &contributor, 10_000).unwrap());

    assert_eq!(client.total_raised(), 10_000);
    assert_eq!(client.contribution(&contributor), 10_000);
}

#[test]
fn test_contribute_above_minimum() {
    let (mut env, mut client, creator, token_address, mut bank) = setup_env();

    let deadline = env.timestamp() + 3600;
    let goal: i128 = 1_000_000;
    let min_contribution: i128 = 10_000;
    client
        .initialize(&env, creator, token_address, goal, deadline, min_contribution, None)
        .unwrap();

    let contributor = generate(&mut env, "GALICE");
    bank.mint(&contributor, 50_000);

    bank.perform(&client.contribute(&env, &contributor, 50_000).unwrap());

    assert_eq!(client.total_raised(), 50_000);
    assert_eq!(client.contribution(&contributor), 50_000);
}

#[test]
fn test_token_address_view() {
    let (env, mut client, creator, token_address, _bank) = setup_env();

    let deadline = env.timestamp() + 3600;
    let goal: i128 = 1_000_000;
    let min_contribution: i128 = 1_000;

    client
        .initialize(&env, creator, token_address.clone(), goal, deadline, min_contribution, None)
        .unwrap();

    assert_eq!(client.token(), token_address);
}

#[test]
fn test_contributors_empty_list() {
    let (env, mut client, creator, token_address, _bank) = setup_env();

    let deadline = env.timestamp() + 3600;
    let goal: i128 = 1_000_000;
    let min_contribution: i128 = 1_000;
    client
        .initialize(&env, creator, token_address, goal, deadline, min_contribution, None)
        .unwrap();

    let contributors = client.contributors();
    assert_eq!(contributors.len(), 0);
}

#[test]
fn test_contributors_single_contributor() {
    let (mut env, mut client, creator, token_address, mut bank) = setup_env();

    let deadline = env.timestamp() + 3600;
    let goal: i128 = 1_000_000;
    let min_contribution: i128 = 1_000;
    client
        .initialize(&env, creator, token_address, goal, deadline, min_contribution, None)
        .unwrap();

    let alice = generate(&mut env, "GALICE");
    bank.mint(&alice, 500_000);
    bank.perform(&client.contribute(&env, &alice, 500_000).unwrap());

    let contributors = client.contributors();
    assert_eq!(contributors.len(), 1);
    assert_eq!(contributors.get(0).unwrap(), &alice);
}

#[test]
fn test_contributors_multiple_contributors() {
    let (mut env, mut client, creator, token_address, mut bank) = setup_env();

    let deadline = env.timestamp() + 3600;
    let goal: i128 = 1_000_000;
    let min_contribution: i128 = 1_000;
    client
        .initialize(&env, creator, token_address, goal, deadline, min_contribution, None)
        .unwrap();

    let alice = generate(&mut env, "GALICE");
    let bob = generate(&mut env, "GBOB");
    let charlie = generate(&mut env, "GCHARLIE");

    bank.mint(&alice, 300_000);
    bank.mint(&bob, 400_000);
    bank.mint(&charlie, 300_000);

    bank.perform(&client.contribute(&env, &alice, 300_000).unwrap());
    bank.perform(&client.contribute(&env, &bob, 400_000).unwrap());
    bank.perform(&client.contribute(&env, &charlie, 300_000).unwrap());

    let contributors = client.contributors();
    assert_eq!(contributors.len(), 3);
    assert!(contributors.contains(&alice));
    assert!(contributors.contains(&bob));
    assert!(contributors.contains(&charlie));
}

#[test]
fn test_contributors_duplicate_contributions() {
    let (mut env, mut client, creator, token_address, mut bank) = setup_env();

    let deadline = env.timestamp() + 3600;
    let goal: i128 = 1_000_000;
    let min_contribution: i128 = 1_000;
    client
        .initialize(&env, creator, token_address, goal, deadline, min_contribution, None)
        .unwrap();

    let alice = generate(&mut env, "GALICE");
    bank.mint(&alice, 600_000);

    bank.perform(&client.contribute(&env, &alice, 300_000).unwrap());
    bank.perform(&client.contribute(&env, &alice, 300_000).unwrap());

    let contributors = client.contributors();
    assert_eq!(contributors.len(), 1);
    assert_eq!(contributors.get(0).unwrap(), &alice);
    assert_eq!(client.contribution(&alice), 600_000);
}

#[test]
fn test_contributors_order_preserved() {
    let (mut env, mut client, creator, token_address, mut bank) = setup_env();

    let deadline = env.timestamp() + 3600;
    let goal: i128 = 1_000_000;
    let min_contribution: i128 = 1_000;
    client
        .initialize(&env, creator, token_address, goal, deadline, min_contribution, None)
        .unwrap();

    let alice = generate(&mut env, "GALICE");
    let bob = generate(&mut env, "GBOB");
    let charlie = generate(&mut env, "GCHARLIE");

    bank.mint(&alice, 100_000);
    bank.mint(&bob, 100_000);
    bank.mint(&charlie, 100_000);

    bank.perform(&client.contribute(&env, &alice, 100_000).unwrap());
    bank.perform(&client.contribute(&env, &bob, 100_000).unwrap());
    bank.perform(&client.contribute(&env, &charlie, 100_000).unwrap());

    let contributors = client.contributors();
    assert_eq!(contributors.len(), 3);
    assert_eq!(contributors.get(0).unwrap(), &alice);
    assert_eq!(contributors.get(1).unwrap(), &bob);
    assert_eq!(contributors.get(2).unwrap(), &charlie);
}

/// The result of a call that must succeed: a refusal ends the test with its
/// message.
fn accepted<T>(result: Result<T, Error>) -> T {
    match result {
        Ok(value) => value,
        Err(error) => panic!("{}", error.message()),
    }
}

#[test]
#[should_panic(expected = "already initialized")]
fn test_double_initialize_panics() {
    let (env, mut client, creator, token_address, _bank) = setup_env();

    let deadline = env.timestamp() + 3600;
    let goal: i128 = 1_000_000;
    let min_contribution: i128 = 1_000;

    accepted(client.initialize(
        &env,
        creator.clone(),
        token_address.clone(),
        goal,
        deadline,
        min_contribution,
        None,
    ));
    accepted(client.initialize(&env, creator, token_address, goal, deadline, min_contribution, None));
}

#[test]
#[should_panic(expected = "campaign has ended")]
fn test_contribute_after_deadline_panics() {
    let (mut env, mut client, creator, token_address, mut bank) = setup_env();

    let deadline = env.timestamp() + 100;
    let goal: i128 = 1_000_000;
    let min_contribution: i128 = 1_000;
    accepted(client.initialize(&env, creator, token_address, goal, deadline, min_contribution, None));

    env.set_timestamp(deadline + 1);

    let contributor = generate(&mut env, "GALICE");
    bank.mint(&contributor, 500_000);

    accepted(client.contribute(&env, &contributor, 500_000));
}

#[test]
#[should_panic(expected = "campaign is still active")]
fn test_withdraw_before_deadline_panics() {
    let (mut env, mut client, creator, token_address, mut bank) = setup_env();

    let deadline = env.timestamp() + 3600;
    let goal: i128 = 1_000_000;
    let min_contribution: i128 = 1_000;
    accepted(client.initialize(&env, creator, token_address, goal, deadline, min_contribution, None));

    let contributor = generate(&mut env, "GALICE");
    bank.mint(&contributor, 1_000_000);
    bank.perform(&accepted(client.contribute(&env, &contributor, 1_000_000)));

    accepted(client.withdraw(&env));
}

#[test]
#[should_panic(expected = "goal not reached")]
fn test_withdraw_goal_not_reached_panics() {
    let (mut env, mut client, creator, token_address, mut bank) = setup_env();

    let deadline = env.timestamp() + 3600;
    let goal: i128 = 1_000_000;
    let min_contribution: i128 = 1_000;
    accepted(client.initialize(&env, creator, token_address, goal, deadline, min_contribution, None));

    let contributor = generate(&mut env, "GALICE");
    bank.mint(&contributor, 500_000);
    bank.perform(&accepted(client.contribute(&env, &contributor, 500_000)));

    env.set_timestamp(deadline + 1);

    accepted(client.withdraw(&env));
}

#[test]
#[should_panic(expected = "goal was reached; use withdraw instead")]
fn test_refund_when_goal_reached_panics() {
    let (mut env, mut client, creator, token_address, mut bank) = setup_env();

    let deadline = env.timestamp() + 3600;
    let goal: i128 = 1_000_000;
    let min_contribution: i128 = 1_000;
    accepted(client.initialize(&env, creator, token_address, goal, deadline, min_contribution, None));

    let contributor = generate(&mut env, "GALICE");
    bank.mint(&contributor, 1_000_000);
    bank.perform(&accepted(client.contribute(&env, &contributor, 1_000_000)));

    env.set_timestamp(deadline + 1);

    accepted(client.refund_single(&env, &contributor));
}

#[test]
#[should_panic(expected = "campaign is not active")]
fn test_double_withdraw_panics() {
    let (mut env, mut client, creator, token_address, mut bank) = setup_env();

    let deadline = env.timestamp() + 3600;
    let goal: i128 = 1_000_000;
    let min_contribution: i128 = 1_000;
    accepted(client.initialize(&env, creator, token_address, goal, deadline, min_contribution, None));

    let contributor = generate(&mut env, "GALICE");
    bank.mint(&contributor, 1_000_000);
    bank.perform(&accepted(client.contribute(&env, &contributor, 1_000_000)));

    env.set_timestamp(deadline + 1);

    bank.perform(&client.withdraw(&env).unwrap());
    accepted(client.withdraw(&env));
}

#[test]
#[should_panic(expected = "campaign is not active")]
fn test_double_refund_panics() {
    let (mut env, mut client, creator, token_address, mut bank) = setup_env();

    let deadline = env.timestamp() + 3600;
    let goal: i128 = 1_000_000;
    let min_contribution: i128 = 1_000;
    accepted(client.initialize(&env, creator, token_address, goal, deadline, min_contribution, None));

    let alice = generate(&mut env, "GALICE");
    bank.mint(&alice, 500_000);
    bank.perform(&accepted(client.contribute(&env, &alice, 500_000)));

    env.set_timestamp(deadline + 1);

    bank.perform(&client.refund_single(&env, &alice).unwrap());
    accepted(client.refund_single(&env, &alice));
}

#[test]
#[should_panic(expected = "amount below minimum")]
fn test_contribute_below_minimum_panics() {
    let (mut env, mut client, creator, token_address, mut bank) = setup_env();

    let deadline = env.timestamp() + 3600;
    let goal: i128 = 1_000_000;
    let min_contribution: i128 = 10_000;
    accepted(client.initialize(&env, creator, token_address, goal, deadline, min_contribution, None));

    let contributor = generate(&mut env, "GALICE");
    bank.mint(&contributor, 5_000);

    accepted(client.contribute(&env, &contributor, 5_000));
}

#[test]
fn double_initialize_is_refused() {
    let (env, mut client, creator, token_address, _bank) = setup_env();

    let deadline = env.timestamp() + 3600;
    client
        .initialize(&env, creator.clone(), token_address.clone(), 1_000_000, deadline, 1_000, None)
        .unwrap();
    let second = client.initialize(&env, creator, token_address, 1_000_000, deadline, 1_000, None);

    assert_eq!(second, Err(Error::Contract(ContractError::AlreadyInitialized)));
}

#[test]
fn contribute_after_deadline_is_refused() {
    let (mut env, mut client, creator, token_address, mut bank) = setup_env();

    let deadline = env.timestamp() + 100;
    client.initialize(&env, creator, token_address, 1_000_000, deadline, 1_000, None).unwrap();

    env.set_timestamp(deadline + 1);

    let contributor = generate(&mut env, "GALICE");
    bank.mint(&contributor, 500_000);

    let result = client.contribute(&env, &contributor, 500_000);
    assert_eq!(result, Err(Error::Contract(ContractError::CampaignEnded)));
    assert_eq!(client.total_raised(), 0);
    assert_eq!(client.contribution(&contributor), 0);
    assert_eq!(client.contributors().len(), 0);
}

#[test]
fn withdraw_before_deadline_is_refused() {
    let (mut env, mut client, creator, token_address, mut bank) = setup_env();

    let deadline = env.timestamp() + 3600;
    client.initialize(&env, creator, token_address, 1_000_000, deadline, 1_000, None).unwrap();

    let contributor = generate(&mut env, "GALICE");
    bank.mint(&contributor, 1_000_000);
    bank.perform(&client.contribute(&env, &contributor, 1_000_000).unwrap());

    assert_eq!(client.withdraw(&env), Err(Error::Contract(ContractError::CampaignStillActive)));
    env.set_timestamp(deadline);
    assert_eq!(client.withdraw(&env), Err(Error::Contract(ContractError::CampaignStillActive)));
    assert_eq!(client.total_raised(), 1_000_000);
}

#[test]
fn withdraw_goal_not_reached_is_refused() {
    let (mut env, mut client, creator, token_address, mut bank) = setup_env();

    let deadline = env.timestamp() + 3600;
    client.initialize(&env, creator, token_address, 1_000_000, deadline, 1_000, None).unwrap();

    let contributor = generate(&mut env, "GALICE");
    bank.mint(&contributor, 500_000);
    bank.perform(&client.contribute(&env, &contributor, 500_000).unwrap());

    env.set_timestamp(deadline + 1);

    assert_eq!(client.withdraw(&env), Err(Error::Contract(ContractError::GoalNotReached)));
    assert_eq!(client.total_raised(), 500_000);
}

#[test]
fn refund_when_goal_reached_is_refused() {
    let (mut env, mut client, creator, token_address, mut bank) = setup_env();

    let deadline = env.timestamp() + 3600;
    client.initialize(&env, creator, token_address, 1_000_000, deadline, 1_000, None).unwrap();

    let contributor = generate(&mut env, "GALICE");
    bank.mint(&contributor, 1_000_000);
    bank.perform(&client.contribute(&env, &contributor, 1_000_000).unwrap());

    env.set_timestamp(deadline + 1);

    assert_eq!(
        client.refund_single(&env, &contributor),
        Err(Error::Contract(ContractError::GoalReached))
    );
    assert_eq!(client.contribution(&contributor), 1_000_000);
}

#[test]
fn double_withdraw_is_refused() {
    let (mut env, mut client, creator, token_address, mut bank) = setup_env();

    let deadline = env.timestamp() + 3600;
    client.initialize(&env, creator, token_address, 1_000_000, deadline, 1_000, None).unwrap();

    let contributor = generate(&mut env, "GALICE");
    bank.mint(&contributor, 1_000_000);
    bank.perform(&client.contribute(&env, &contributor, 1_000_000).unwrap());

    env.set_timestamp(deadline + 1);

    bank.perform(&client.withdraw(&env).unwrap());
    let second = client.withdraw(&env);
    assert_eq!(second, Err(Error::Abort(Abort::NotActive)));
    assert_eq!(Abort::NotActive.message(), "campaign is not active");
}

#[test]
fn double_refund_is_refused() {
    let (mut env, mut client, creator, token_address, mut bank) = setup_env();

    let deadline = env.timestamp() + 3600;
    client.initialize(&env, creator, token_address, 1_000_000, deadline, 1_000, None).unwrap();

    let alice = generate(&mut env, "GALICE");
    bank.mint(&alice, 500_000);
    bank.perform(&client.contribute(&env, &alice, 500_000).unwrap());

    env.set_timestamp(deadline + 1);

    bank.perform(&client.refund_single(&env, &alice).unwrap());
    assert_eq!(bank.balance(&alice), 500_000);
    assert_eq!(client.refund_single(&env, &alice), Err(Error::Abort(Abort::NotActive)));
}

#[test]
fn contribute_below_minimum_is_refused() {
    let (mut env, mut client, creator, token_address, mut bank) = setup_env();

    let deadline = env.timestamp() + 3600;
    client.initialize(&env, creator, token_address, 1_000_000, deadline, 10_000, None).unwrap();

    let contributor = generate(&mut env, "GALICE");
    bank.mint(&contributor, 5_000);

    let result = client.contribute(&env, &contributor, 5_000);
    assert_eq!(result, Err(Error::Abort(Abort::BelowMinimum)));
    assert_eq!(Abort::BelowMinimum.message(), "amount below minimum");
    assert_eq!(client.total_raised(), 0);
    assert_eq!(client.contribution(&contributor), 0);
    assert_eq!(client.contributors().len(), 0);
}
