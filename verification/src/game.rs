//! An on-chain game's configuration, users, and level-up rule.
//!
//! Levelling up burns credits: reaching level `n` costs `credits_per_level`
//! times the `n`-th triangular number, and a level-up call picks the highest
//! level whose cost still lies *below* the credits offered for burning.  The
//! cost is subtracted from the user's credits before anything checks that the
//! user can afford it, so the failed subtraction is the error, and a caller
//! can ask for a level far beyond what the user holds — the contracts state
//! the cost exactly so that mismatch is visible.

use vstd::prelude::*;

verus! {

/// Why a game call aborts.
#[derive(Clone, Copy, PartialEq, Eq, Structural, Debug)]
pub enum GameError {
    /// Only the game's admin may mint credits.
    NotAdmin,
    /// Only the user's own authority may level the user up.
    NotAuthority,
    /// The user's credits would overflow.
    CreditsOverflow,
    /// The user holds fewer credits than the level-up burns.
    InsufficientCredits,
}

/// The game's configuration account.
pub struct GameConfig {
    /// The key that administers the game.
    pub admin: u64,
    /// The per-level factor of the level costs.
    pub credits_per_level: u8,
}

/// A player's account.
pub struct User {
    /// The key that owns this user.
    pub authority: u64,
    /// The level reached.
    pub level: u32,
    /// The credits held.
    pub credits: u32,
}

/// The `n`-th triangular number: `1 + 2 + … + n`.
pub open spec fn triangular(n: nat) -> nat
    decreases n,
{
    if n == 0 {
        0
    } else {
        n + triangular((n - 1) as nat)
    }
}

/// Creates the game's configuration.
pub fn create_game_config(admin: u64, credits_per_level: u8) -> (r: GameConfig)
    ensures
        r.admin == admin,
        r.credits_per_level == credits_per_level,
{
    GameConfig { admin, credits_per_level }
}

/// Creates a player at level zero with no credits.
pub fn create_user(authority: u64) -> (r: User)
    ensures
        r.authority == authority,
        r.level == 0,
        r.credits == 0,
{
    User { authority, level: 0, credits: 0 }
}

/// Mints `amount` credits for the user.  Only the game's admin may mint.
pub fn mint_credits_to_user(config: &GameConfig, user: &mut User, signer: u64, amount: u32) -> (r:
    Result<(), GameError>)
    ensures
        final(user).authority == old(user).authority,
        final(user).level == old(user).level,
        signer != config.admin ==> r == Err::<(), GameError>(GameError::NotAdmin) && final(user).credits == old(user).credits,
        signer == config.admin && old(user).credits + amount > u32::MAX ==> r == Err::<
            (),
            GameError,
        >(GameError::CreditsOverflow) && final(user).credits == old(user).credits,
        signer == config.admin && old(user).credits + amount <= u32::MAX ==> r == Ok::<
            (),
            GameError,
        >(()) && final(user).credits == old(user).credits + amount,
{
    if signer != config.admin {
        return Err(GameError::NotAdmin);
    }
    match user.credits.checked_add(amount) {
        Some(new_credits) => {
            user.credits = new_credits;
            Ok(())
        },
        None => Err(GameError::CreditsOverflow),
    }
}

/// The level that `credits_to_burn` pays for, and what reaching it costs.
///
/// The level is the least one whose *next* level costs at least the offered
/// credits; the cost returned is the chosen level's own, one triangular step
/// lower.  So offering more credits than the cost of the next level
/// overshoots: the cost can lie far above what a user actually holds.
pub fn level_credits_for_burn(credits_to_burn: u32, credits_per_level: u8) -> (r: (u32, u32))
    requires
        credits_per_level > 0,
    ensures
        credits_to_burn == 0 ==> r == (0u32, 0u32),
        credits_to_burn > 0 ==> {
            &&& r.0 >= 1
            &&& credits_per_level * triangular((r.0 - 1) as nat) < credits_to_burn
            &&& credits_per_level * triangular(r.0 as nat) >= credits_to_burn
            &&& r.1 == credits_per_level * triangular((r.0 - 1) as nat)
        },
{
    let burn: u64 = credits_to_burn as u64;
    let cpl: u64 = credits_per_level as u64;
    let mut iterator: u64 = 0;
    let mut level_credits: u64 = 0;
    let mut next_level_credits: u64 = 0;
    proof {
        assert(triangular(0) == 0);
    }
    while next_level_credits < burn
        invariant
            1 <= cpl <= 255,
            burn <= u32::MAX,
            next_level_credits == cpl * triangular(iterator as nat),
            iterator > 0 ==> level_credits == cpl * triangular((iterator - 1) as nat),
            iterator == 0 ==> level_credits == 0,
            iterator <= next_level_credits,
            iterator <= burn,
            level_credits < burn || burn == 0,
            next_level_credits <= burn + iterator * cpl,
        decreases (if next_level_credits <= burn { burn - next_level_credits } else { 0int }),
    {
        level_credits = next_level_credits;
        iterator = iterator + 1;
        proof {
            assert(iterator * cpl >= iterator && iterator * cpl >= 1 && iterator * cpl <= iterator
                * 255) by (nonlinear_arith)
                requires
                    1 <= cpl <= 255,
                    iterator >= 1,
            ;
            assert(cpl * triangular((iterator - 1) as nat) + iterator * cpl == cpl * triangular(
                iterator as nat,
            )) by (nonlinear_arith)
                requires
                    iterator >= 1,
                    triangular(iterator as nat) == iterator + triangular((iterator - 1) as nat),
            ;
        }
        next_level_credits = next_level_credits + iterator * cpl;
    }
    proof {
        assert(triangular(0) == 0);
    }
    (iterator as u32, level_credits as u32)
}

/// True when `k` is the level that `burn` offered credits pay for: the first
/// level whose cost reaches the offer lies right above it.
pub open spec fn level_bracket(burn: u32, cpl: u8, k: nat) -> bool {
    &&& k >= 1
    &&& cpl * triangular(k) >= burn
    &&& cpl * triangular((k - 1) as nat) < burn
}

/// The level that `burn` offered credits pay for; zero for a zero offer.
pub open spec fn level_target(burn: u32, cpl: u8) -> nat {
    if burn == 0 {
        0
    } else {
        choose|k: nat| level_bracket(burn, cpl, k)
    }
}

/// What reaching [`level_target`] costs.
pub open spec fn level_cost(burn: u32, cpl: u8) -> nat {
    if burn == 0 {
        0
    } else {
        (cpl * triangular((level_target(burn, cpl) - 1) as nat)) as nat
    }
}

/// Triangular numbers grow strictly.
proof fn lemma_triangular_increasing(a: nat, b: nat)
    requires
        a < b,
    ensures
        triangular(a) < triangular(b),
    decreases b,
{
    if a + 1 < b {
        lemma_triangular_increasing(a, (b - 1) as nat);
    }
}

/// At most one level fits the bracket for a given offer: were one smaller,
/// its own cost would both reach the offer and lie below it.
proof fn lemma_level_bracket_unique(burn: u32, cpl: u8, k1: nat, k2: nat)
    requires
        cpl >= 1,
        level_bracket(burn, cpl, k1),
        level_bracket(burn, cpl, k2),
    ensures
        k1 == k2,
{
    if k1 < k2 {
        if k1 < k2 - 1 {
            lemma_triangular_increasing(k1, (k2 - 1) as nat);
        }
        assert(cpl * triangular(k1) <= cpl * triangular((k2 - 1) as nat)) by (nonlinear_arith)
            requires
                cpl >= 1,
                triangular(k1) <= triangular((k2 - 1) as nat),
        ;
    } else if k2 < k1 {
        if k2 < k1 - 1 {
            lemma_triangular_increasing(k2, (k1 - 1) as nat);
        }
        assert(cpl * triangular(k2) <= cpl * triangular((k1 - 1) as nat)) by (nonlinear_arith)
            requires
                cpl >= 1,
                triangular(k2) <= triangular((k1 - 1) as nat),
        ;
    }
}

/// Levels the user up as far as `credits_to_burn` reaches, and burns the
/// chosen level's cost.  Only the user's authority may call.  The cost is
/// subtracted from what the user holds with no check up front: a user who
/// offers to burn more than they hold hits the failed subtraction, and loses
/// nothing only because the whole call fails.
pub fn user_level_up(
    config: &GameConfig,
    user: &mut User,
    signer: u64,
    credits_to_burn: u32,
) -> (r: Result<(), GameError>)
    requires
        config.credits_per_level > 0,
    ensures
        final(user).authority == old(user).authority,
        signer != old(user).authority ==> r == Err::<(), GameError>(GameError::NotAuthority)
            && final(user).level == old(user).level && final(user).credits == old(user).credits,
        signer == old(user).authority ==> {
            let cost = level_cost(credits_to_burn, config.credits_per_level);
            let target = level_target(credits_to_burn, config.credits_per_level);
            if old(user).credits < cost {
                r == Err::<(), GameError>(GameError::InsufficientCredits) && final(user).level
                    == old(user).level && final(user).credits == old(user).credits
            } else {
                r == Ok::<(), GameError>(()) && final(user).level == target && final(user).credits
                    == old(user).credits - cost
            }
        },
{
    if signer != user.authority {
        return Err(GameError::NotAuthority);
    }
    let (new_level, level_credits) = level_credits_for_burn(
        credits_to_burn,
        config.credits_per_level,
    );
    proof {
        if credits_to_burn > 0 {
            assert(level_bracket(credits_to_burn, config.credits_per_level, new_level as nat));
            lemma_level_bracket_unique(
                credits_to_burn,
                config.credits_per_level,
                new_level as nat,
                level_target(credits_to_burn, config.credits_per_level),
            );
        }
    }
    match user.credits.checked_sub(level_credits) {
        Some(new_credits) => {
            user.credits = new_credits;
            user.level = new_level;
            Ok(())
        },
        None => Err(GameError::InsufficientCredits),
    }
}

} // verus!
