use ctf_contracts::game::create_game_config;
use ctf_contracts::game::create_user;
use ctf_contracts::game::level_credits_for_burn;
use ctf_contracts::game::mint_credits_to_user;
use ctf_contracts::game::user_level_up;
use ctf_contracts::game::GameError;

#[test]
fn test_user_level_up_integer_underflow_vulnerability() {
    // The level-up cost is computed from the credits offered, not from what
    // the user holds: offering to burn 50 prices level 3 at 30 credits, and
    // a user with only 5 hits the failed subtraction.
    let admin: u64 = 10;
    let user_authority: u64 = 20;

    let credits_per_level: u8 = 10;
    let config = create_game_config(admin, credits_per_level);
    let mut user = create_user(user_authority);

    // User has only 5 credits
    mint_credits_to_user(&config, &mut user, admin, 5).unwrap();

    // Attack: try to level up with credits_to_burn = 50.
    //   - Iteration 1: level_credits=0,  iterator=1, next_level_credits=10
    //   - Iteration 2: level_credits=10, iterator=2, next_level_credits=30
    //   - Iteration 3: level_credits=30, iterator=3, next_level_credits=60
    //   - Loop exits (60 < 50 is false); level_credits = 30
    //   - Subtraction: user.credits (5) - level_credits (30) fails
    let result = user_level_up(&config, &mut user, user_authority, 50);
    assert!(result.is_err(), "Expected error due to integer underflow");
    assert_eq!(result, Err(GameError::InsufficientCredits));
    assert_eq!(user.credits, 5);
    assert_eq!(user.level, 0);
}

#[test]
fn test_user_level_up_validation_after_subtraction_bug() {
    // Even a user holding exactly one level's worth fails when offering more:
    // the cost is checked only at the subtraction itself.
    let admin: u64 = 10;
    let user_authority: u64 = 20;

    let credits_per_level: u8 = 10;
    let config = create_game_config(admin, credits_per_level);
    let mut user = create_user(user_authority);

    // Exactly enough for level 1 (1 * 10 = 10)
    mint_credits_to_user(&config, &mut user, admin, 10).unwrap();

    // Try to level up with credits_to_burn = 50: that prices level 3 at 30,
    // and 10 - 30 fails.
    let result = user_level_up(&config, &mut user, user_authority, 50);
    assert!(result.is_err(), "Expected error - validation happens after subtraction");
}

#[test]
fn level_costs_follow_the_triangular_numbers() {
    // cpl = 10: level costs are 0, 10, 30, 60, ... and an offer picks the
    // level right below the first cost that reaches it.
    assert_eq!(level_credits_for_burn(0, 10), (0, 0));
    assert_eq!(level_credits_for_burn(1, 10), (1, 0));
    assert_eq!(level_credits_for_burn(10, 10), (1, 0));
    assert_eq!(level_credits_for_burn(11, 10), (2, 10));
    assert_eq!(level_credits_for_burn(30, 10), (2, 10));
    assert_eq!(level_credits_for_burn(31, 10), (3, 30));
    assert_eq!(level_credits_for_burn(50, 10), (3, 30));
    assert_eq!(level_credits_for_burn(60, 10), (3, 30));
    assert_eq!(level_credits_for_burn(61, 10), (4, 60));
}

#[test]
fn level_up_burns_the_level_cost() {
    let config = create_game_config(1, 10);
    let mut user = create_user(2);
    mint_credits_to_user(&config, &mut user, 1, 100).unwrap();

    user_level_up(&config, &mut user, 2, 50).unwrap();
    assert_eq!(user.level, 3);
    assert_eq!(user.credits, 70);
}

#[test]
fn only_the_admin_mints_and_only_the_authority_levels_up() {
    let config = create_game_config(1, 10);
    let mut user = create_user(2);
    assert_eq!(mint_credits_to_user(&config, &mut user, 2, 5), Err(GameError::NotAdmin));
    assert_eq!(user_level_up(&config, &mut user, 1, 50), Err(GameError::NotAuthority));
}

#[test]
fn minting_cannot_overflow_the_credits() {
    let config = create_game_config(1, 10);
    let mut user = create_user(2);
    mint_credits_to_user(&config, &mut user, 1, u32::MAX).unwrap();
    assert_eq!(
        mint_credits_to_user(&config, &mut user, 1, 1),
        Err(GameError::CreditsOverflow)
    );
    assert_eq!(user.credits, u32::MAX);
}
