use vstd::prelude::*;
use crate::types::Move;

verus! {

// Payoffs: multipliers of the stake.
pub const REWARD_MULTIPLIER: i128 = 2;

pub const SUCKER_MULTIPLIER: i128 = 0;

pub const TEMPTATION_MULTIPLIER: i128 = 3;

pub const PUNISHMENT_MULTIPLIER: i128 = 0;

/// Largest stake magnitude whose temptation payout (three times the stake)
/// still fits in an i128.
pub const MAX_PAYOFF_STAKE: i128 = 56713727820156410577229101238628035242;

/// Stakes for which every payout of the matrix fits in an i128.
pub open spec fn stake_in_range(stake: int) -> bool {
    -(MAX_PAYOFF_STAKE as int) <= stake <= MAX_PAYOFF_STAKE as int
}

/// Payout owed to the player of `move_a` under the classic matrix:
/// mutual cooperation pays the reward, a lone defector the temptation,
/// a lone cooperator the sucker's share, mutual defection the punishment.
pub open spec fn payoff_a(move_a: Move, move_b: Move, stake: int) -> int {
    match (move_a, move_b) {
        (Move::Cooperate, Move::Cooperate) => (REWARD_MULTIPLIER as int) * stake,
        (Move::Cooperate, Move::Defect) => (SUCKER_MULTIPLIER as int) * stake,
        (Move::Defect, Move::Cooperate) => (TEMPTATION_MULTIPLIER as int) * stake,
        (Move::Defect, Move::Defect) => (PUNISHMENT_MULTIPLIER as int) * stake,
    }
}

/// Payout owed to the player of `move_b`: the matrix is symmetric, so it is
/// the first player's payout with the moves swapped.
pub open spec fn payoff_b(move_a: Move, move_b: Move, stake: int) -> int {
    payoff_a(move_b, move_a, stake)
}

/// Both payouts for one round: first the payout of `move_a`'s player,
/// then the payout of `move_b`'s player.
pub fn payoff(move_a: &Move, move_b: &Move, stake: i128) -> (r: (i128, i128))
    requires
        stake_in_range(stake as int),
    ensures
        r.0 == payoff_a(*move_a, *move_b, stake as int),
        r.1 == payoff_b(*move_a, *move_b, stake as int),
{
    match (move_a, move_b) {
        (Move::Cooperate, Move::Cooperate) => (REWARD_MULTIPLIER * stake, REWARD_MULTIPLIER * stake),
        (Move::Cooperate, Move::Defect) => (SUCKER_MULTIPLIER * stake, TEMPTATION_MULTIPLIER * stake),
        (Move::Defect, Move::Cooperate) => (TEMPTATION_MULTIPLIER * stake, SUCKER_MULTIPLIER * stake),
        (Move::Defect, Move::Defect) => (PUNISHMENT_MULTIPLIER * stake, PUNISHMENT_MULTIPLIER * stake),
    }
}

/// The classic matrix, written out for every move pair: mutual cooperation
/// pays each side twice the stake (the reward), a lone defector takes three
/// stakes (the temptation) while the lone cooperator takes nothing (the
/// sucker's share), and mutual defection pays nothing (the punishment).
pub proof fn lemma_payoff_matrix(stake: int)
    ensures
        payoff_a(Move::Cooperate, Move::Cooperate, stake) == 2 * stake,
        payoff_b(Move::Cooperate, Move::Cooperate, stake) == 2 * stake,
        payoff_a(Move::Cooperate, Move::Defect, stake) == 0,
        payoff_b(Move::Cooperate, Move::Defect, stake) == 3 * stake,
        payoff_a(Move::Defect, Move::Cooperate, stake) == 3 * stake,
        payoff_b(Move::Defect, Move::Cooperate, stake) == 0,
        payoff_a(Move::Defect, Move::Defect, stake) == 0,
        payoff_b(Move::Defect, Move::Defect, stake) == 0,
{
}

/// A zero stake pays nothing to either player, whatever the moves.
pub proof fn lemma_payoff_zero_stake(move_a: Move, move_b: Move)
    ensures
        payoff_a(move_a, move_b, 0) == 0,
        payoff_b(move_a, move_b, 0) == 0,
{
}

} // verus!
