use token_governance::principal::{Principal, PrincipalList};
use token_governance::sensory_evaluation::storage::{
    get_max_supply, get_token_info, load_next_stake_id, store_admins,
};
use token_governance::sensory_evaluation::types::SensoryError;
use token_governance::sensory_evaluation::SensoryEvaluation;

fn list(names: &[&Principal]) -> PrincipalList {
    let mut admins = PrincipalList::new();
    for name in names {
        admins.push_back((*name).clone());
    }
    admins
}

fn token(admins: &[&Principal]) -> SensoryEvaluation {
    let mut token = SensoryEvaluation::new();
    assert_eq!(
        token.initialize(
            list(admins),
            String::from("SensoryToken"),
            String::from("SEN"),
            1000000,
            6
        ),
        Ok(())
    );
    token
}

#[test]
fn test_test_initialization() {
    let admin = Principal::new("admin");
    let token = token(&[&admin]);
    assert_eq!(token.get_total_supply(), 0);
    assert_eq!(token.get_admins().len(), 1);
    let info = get_token_info(&token.storage).unwrap();
    assert_eq!(info.name, String::from("SensoryToken"));
    assert_eq!(info.symbol, String::from("SEN"));
    assert_eq!(info.max_supply, 1000000);
    assert_eq!(info.decimals, 6);
}

#[test]
fn test_mint_and_burn() {
    let admin1 = Principal::new("admin1");
    let admin2 = Principal::new("admin2");
    let user = Principal::new("user");
    let mut token = token(&[&admin1, &admin2]);

    assert_eq!(token.mint_tokens(&admin1, &user, 1000), Ok(()));
    assert_eq!(token.get_balance(&user), 1000);
    assert_eq!(token.get_total_supply(), 1000);

    assert_eq!(token.burn_tokens(&admin1, &user, 500), Ok(()));
    assert_eq!(token.get_balance(&user), 500);
    assert_eq!(token.get_total_supply(), 500);
}

#[test]
fn test_transfer() {
    let admin = Principal::new("admin");
    let user1 = Principal::new("user1");
    let user2 = Principal::new("user2");
    let mut token = token(&[&admin]);

    assert_eq!(token.mint_tokens(&admin, &user1, 1000), Ok(()));
    assert_eq!(token.transfer_tokens(&user1, &user2, 500), Ok(()));

    assert_eq!(token.get_balance(&user1), 500);
    assert_eq!(token.get_balance(&user2), 500);
}

#[test]
fn test_staking_schedule() {
    let admin = Principal::new("admin");
    let user = Principal::new("user");
    let mut token = token(&[&admin]);

    assert_eq!(token.mint_tokens(&admin, &user, 1000), Ok(()));

    let current_time = 0;
    assert_eq!(token.stake_tokens(current_time, &user, 1000, 3600), Ok(()));

    let stakes = token.get_stakes(&user);
    assert_eq!(stakes.len(), 1);
    let stake = stakes.get(0).unwrap();
    assert_eq!(stake.amount, 1000);
    assert_eq!(stake.duration, 3600);
    assert_eq!(stake.claimed, false);
    assert_eq!(token.get_balance(&user), 0);

    assert_eq!(token.unstake_tokens(current_time + 3600, &user, 0), Ok(()));

    assert_eq!(token.get_balance(&user), 1000);
    let stakes = token.get_stakes(&user);
    assert!(stakes.get(0).unwrap().claimed);
}

#[test]
fn test_test_add_admin() {
    let initial_admin = Principal::new("initial admin");
    let new_admin = Principal::new("new admin");
    let mut token = token(&[&initial_admin]);

    assert_eq!(token.add_admin(&initial_admin, new_admin.clone()), Ok(()));

    let user = Principal::new("user");
    assert_eq!(token.mint_tokens(&new_admin, &user, 1000), Ok(()));
    assert_eq!(token.get_balance(&user), 1000);
}

#[test]
fn test_multiple_mints() {
    let admin = Principal::new("admin");
    let user = Principal::new("user");
    let mut token = token(&[&admin]);

    assert_eq!(token.mint_tokens(&admin, &user, 1000), Ok(()));
    assert_eq!(token.mint_tokens(&admin, &user, 500), Ok(()));

    assert_eq!(token.get_balance(&user), 1500);
    assert_eq!(token.get_total_supply(), 1500);
}

#[test]
fn test_multiple_transfers() {
    let admin = Principal::new("admin");
    let user1 = Principal::new("user1");
    let user2 = Principal::new("user2");
    let mut token = token(&[&admin]);

    assert_eq!(token.mint_tokens(&admin, &user1, 1000), Ok(()));
    assert_eq!(token.transfer_tokens(&user1, &user2, 300), Ok(()));
    assert_eq!(token.transfer_tokens(&user1, &user2, 200), Ok(()));

    assert_eq!(token.get_balance(&user1), 500);
    assert_eq!(token.get_balance(&user2), 500);
}

#[test]
fn sensory_initialization_needs_an_admin() {
    let mut token = SensoryEvaluation::new();
    assert_eq!(
        token.initialize(PrincipalList::new(), String::from("n"), String::from("s"), 1, 0),
        Err(SensoryError::NoAdmins)
    );
    assert!(get_token_info(&token.storage).is_none());
    assert_eq!(token.get_admins().len(), 0);
}

#[test]
fn sensory_initialization_resets_supply_and_keeps_balances() {
    let admin = Principal::new("admin");
    let user = Principal::new("user");
    let mut token = token(&[&admin]);
    assert_eq!(token.mint_tokens(&admin, &user, 40), Ok(()));
    assert_eq!(
        token.initialize(list(&[&user]), String::from("n"), String::from("s"), 7, 1),
        Ok(())
    );
    assert_eq!(token.get_total_supply(), 0);
    assert_eq!(token.get_balance(&user), 40);
    assert_eq!(token.mint_tokens(&admin, &user, 1), Err(SensoryError::NotAdmin));
    assert_eq!(token.mint_tokens(&user, &user, 8), Err(SensoryError::SupplyExceeded));
    assert_eq!(token.mint_tokens(&user, &user, 7), Ok(()));
}

#[test]
fn sensory_admin_rules() {
    let a = Principal::new("a");
    let b = Principal::new("b");
    let c = Principal::new("c");
    let mut token = token(&[&a]);
    assert_eq!(token.add_admin(&b, c.clone()), Err(SensoryError::NotAdmin));
    assert_eq!(token.add_admin(&a, a.clone()), Err(SensoryError::AdminExists));
    assert_eq!(token.remove_admin(&b, &a), Err(SensoryError::NotAdmin));
    assert_eq!(token.remove_admin(&a, &a), Err(SensoryError::LastAdmin));
    assert_eq!(token.add_admin(&a, b.clone()), Ok(()));
    assert_eq!(token.add_admin(&b, c.clone()), Ok(()));
    // Removing one who is not listed leaves the list as it is.
    assert_eq!(token.remove_admin(&a, &Principal::new("nobody")), Ok(()));
    assert_eq!(token.get_admins().len(), 3);
    assert_eq!(token.remove_admin(&c, &b), Ok(()));
    let admins = token.get_admins();
    assert_eq!(admins.len(), 2);
    assert_eq!(*admins.get(0), a);
    assert_eq!(*admins.get(1), c);
    assert_eq!(token.mint_tokens(&b, &b, 1), Err(SensoryError::NotAdmin));
}

#[test]
fn sensory_removal_takes_every_entry_of_the_admin() {
    let a = Principal::new("a");
    let b = Principal::new("b");
    let mut token = token(&[&a, &b, &a]);
    assert_eq!(token.remove_admin(&b, &a), Ok(()));
    let admins = token.get_admins();
    assert_eq!(admins.len(), 1);
    assert_eq!(*admins.get(0), b);
}

#[test]
fn sensory_mint_respects_the_cap_and_burn_the_balance() {
    let admin = Principal::new("admin");
    let user = Principal::new("user");
    let mut token = token(&[&admin]);
    assert_eq!(token.mint_tokens(&user, &user, 1), Err(SensoryError::NotAdmin));
    assert_eq!(token.mint_tokens(&admin, &user, 1000001), Err(SensoryError::SupplyExceeded));
    assert_eq!(token.mint_tokens(&admin, &user, 1000000), Ok(()));
    assert_eq!(token.mint_tokens(&admin, &user, 1), Err(SensoryError::SupplyExceeded));
    assert_eq!(token.mint_tokens(&admin, &user, 0), Ok(()));
    assert_eq!(token.mint_tokens(&admin, &user, u128::MAX), Err(SensoryError::SupplyExceeded));
    assert_eq!(token.burn_tokens(&user, &user, 1), Err(SensoryError::NotAdmin));
    assert_eq!(
        token.burn_tokens(&admin, &user, 1000001),
        Err(SensoryError::InsufficientBalance)
    );
    assert_eq!(token.burn_tokens(&admin, &user, 1000000), Ok(()));
    assert_eq!(token.get_total_supply(), 0);
    assert_eq!(token.get_balance(&user), 0);
    let mut blank = SensoryEvaluation::new();
    assert_eq!(blank.mint_tokens(&admin, &user, 1), Err(SensoryError::NotAdmin));
}

#[test]
fn sensory_minting_needs_the_token_parameters() {
    let admin = Principal::new("admin");
    let user = Principal::new("user");
    let mut token = SensoryEvaluation::new();
    store_admins(&mut token.storage, list(&[&admin]));
    assert_eq!(get_max_supply(&token.storage), None);
    assert_eq!(token.mint_tokens(&admin, &user, 1), Err(SensoryError::NotInitialized));
    assert_eq!(token.get_balance(&user), 0);
    assert_eq!(load_next_stake_id(&token.storage), 1);
}

#[test]
fn sensory_transfer_rules() {
    let admin = Principal::new("admin");
    let user1 = Principal::new("user1");
    let user2 = Principal::new("user2");
    let mut token = token(&[&admin]);
    assert_eq!(token.mint_tokens(&admin, &user1, 10), Ok(()));
    assert_eq!(
        token.transfer_tokens(&user1, &user2, 11),
        Err(SensoryError::InsufficientBalance)
    );
    assert_eq!(token.transfer_tokens(&user2, &user1, 0), Ok(()));
    // A transfer to oneself leaves the balance as it was.
    assert_eq!(token.transfer_tokens(&user1, &user1, 10), Ok(()));
    assert_eq!(token.get_balance(&user1), 10);
    assert_eq!(token.transfer_tokens(&user1, &user2, 10), Ok(()));
    assert_eq!(token.get_balance(&user1), 0);
    assert_eq!(token.get_balance(&user2), 10);
    assert_eq!(token.get_total_supply(), 10);
}

#[test]
fn sensory_stakes_are_found_by_place_and_paid_once() {
    let admin = Principal::new("admin");
    let user = Principal::new("user");
    let other = Principal::new("other");
    let mut token = token(&[&admin]);
    assert_eq!(token.mint_tokens(&admin, &user, 100), Ok(()));
    assert_eq!(token.mint_tokens(&admin, &other, 100), Ok(()));
    assert_eq!(
        token.stake_tokens(5, &user, 101, 10),
        Err(SensoryError::InsufficientBalance)
    );
    assert_eq!(token.stake_tokens(5, &other, 1, 10), Ok(()));
    assert_eq!(token.stake_tokens(5, &user, 60, 10), Ok(()));
    assert_eq!(token.stake_tokens(6, &user, 40, 20), Ok(()));
    let stakes = token.get_stakes(&user);
    assert_eq!(stakes.len(), 2);
    // Identifiers run over all stakers; places run per staker.
    assert_eq!(stakes.get(0).unwrap().id, 2);
    assert_eq!(stakes.get(1).unwrap().id, 3);
    assert_eq!(stakes.get(1).unwrap().start_time, 6);
    assert!(stakes.get(2).is_none());
    assert_eq!(token.get_balance(&user), 0);
    assert_eq!(token.unstake_tokens(100, &user, 2), Err(SensoryError::StakeNotFound));
    assert_eq!(token.unstake_tokens(14, &user, 0), Err(SensoryError::StakeLocked));
    assert_eq!(token.unstake_tokens(15, &user, 0), Ok(()));
    assert_eq!(token.get_balance(&user), 60);
    assert_eq!(token.unstake_tokens(16, &user, 0), Err(SensoryError::StakeClaimed));
    assert_eq!(token.unstake_tokens(25, &user, 1), Err(SensoryError::StakeLocked));
    assert_eq!(token.unstake_tokens(26, &user, 1), Ok(()));
    assert_eq!(token.get_balance(&user), 100);
    assert_eq!(token.get_total_supply(), 200);
    assert_eq!(token.unstake_tokens(u64::MAX, &admin, 0), Err(SensoryError::StakeNotFound));
}

#[test]
fn sensory_stake_deadline_does_not_wrap() {
    let admin = Principal::new("admin");
    let user = Principal::new("user");
    let mut token = token(&[&admin]);
    assert_eq!(token.mint_tokens(&admin, &user, 1), Ok(()));
    assert_eq!(token.stake_tokens(10, &user, 1, u64::MAX), Ok(()));
    assert_eq!(token.unstake_tokens(u64::MAX, &user, 0), Err(SensoryError::StakeLocked));
}
