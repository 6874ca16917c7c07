use prisoners_dilemma::single_player::{Error, GameStatus, SinglePlayerDilemma};
use prisoners_dilemma::types::{Move, Principal, Strategy};

#[test]
fn test_validate_move() {
    assert!(SinglePlayerDilemma::validate_move("C").is_ok());
    assert!(SinglePlayerDilemma::validate_move("D").is_ok());
    assert!(SinglePlayerDilemma::validate_move("INVALID").is_err());
}

#[test]
fn test_validate_strategy() {
    assert!(SinglePlayerDilemma::validate_strategy("COOP").is_ok());
    assert!(SinglePlayerDilemma::validate_strategy("DEF").is_ok());
    assert!(SinglePlayerDilemma::validate_strategy("RND").is_ok());
    assert!(SinglePlayerDilemma::validate_strategy("TFT").is_ok());
    assert!(SinglePlayerDilemma::validate_strategy("INVALID").is_err());
}

#[test]
fn test_calculate_payouts_mutual_cooperation() {
    let (p, a) = SinglePlayerDilemma::calculate_payouts(&Move::Cooperate, &Move::Cooperate, 100);
    assert_eq!(p, 200);
    assert_eq!(a, 200);
}

#[test]
fn test_calculate_payouts_player_defects() {
    let (p, a) = SinglePlayerDilemma::calculate_payouts(&Move::Defect, &Move::Cooperate, 100);
    assert_eq!(p, 300);
    assert_eq!(a, 0);
}

#[test]
fn test_calculate_payouts_mutual_defection() {
    let (p, a) = SinglePlayerDilemma::calculate_payouts(&Move::Defect, &Move::Defect, 100);
    assert_eq!(p, 0);
    assert_eq!(a, 0);
}

#[test]
fn test_calculate_payouts_player_cooperates_ai_defects() {
    let (p, a) = SinglePlayerDilemma::calculate_payouts(&Move::Cooperate, &Move::Defect, 100);
    assert_eq!(p, 0);
    assert_eq!(a, 300);
}

#[test]
fn test_calculate_payouts_zero_stake() {
    let (p, a) = SinglePlayerDilemma::calculate_payouts(&Move::Cooperate, &Move::Cooperate, 0);
    assert_eq!(p, 0);
    assert_eq!(a, 0);
    let (p, a) = SinglePlayerDilemma::calculate_payouts(&Move::Defect, &Move::Cooperate, 0);
    assert_eq!(p, 0);
    assert_eq!(a, 0);
}

#[test]
fn test_play_game_against_cooperator() {
    let mut engine = SinglePlayerDilemma::new();
    let player = Principal(7);
    let res = engine
        .play_game(player, "D", "COOP", 50, 1111, 5)
        .expect("a valid play settles");
    assert_eq!(res.game_id, 1);
    assert_eq!(res.player, player);
    assert_eq!(res.player_move, Move::Defect);
    assert_eq!(res.ai_move, Move::Cooperate);
    assert_eq!(res.ai_strategy, Strategy::Cooperator);
    assert_eq!(res.stake, 50);
    assert_eq!(res.player_payout, 150);
    assert_eq!(res.ai_payout, 0);
    assert_eq!(res.resolved_at, 1111);
    assert_eq!(engine.get_game_count(), 1);
}

#[test]
fn test_play_game_bogus_strategy_leaves_counter() {
    let mut engine = SinglePlayerDilemma::new();
    let player = Principal(1);
    engine
        .play_game(player, "C", "COOP", 10, 1, 1)
        .expect("a valid play settles");
    assert_eq!(engine.get_game_count(), 1);
    let res = engine.play_game(player, "C", "BOGUS", 10, 2, 1);
    assert_eq!(res.unwrap_err(), Error::InvalidStrategy);
    assert_eq!(engine.get_game_count(), 1);
    assert!(engine.get_game(2).is_none());
}

#[test]
fn test_play_game_invalid_move() {
    let mut engine = SinglePlayerDilemma::new();
    let res = engine.play_game(Principal(1), "X", "COOP", 10, 1, 1);
    assert_eq!(res.unwrap_err(), Error::InvalidMove);
    assert_eq!(engine.get_game_count(), 0);
}

#[test]
fn test_play_game_invalid_stake() {
    let mut engine = SinglePlayerDilemma::new();
    let res = engine.play_game(Principal(1), "C", "DEF", 0, 1, 1);
    assert_eq!(res.unwrap_err(), Error::InvalidStake);
    let res = engine.play_game(Principal(1), "C", "DEF", -5, 1, 1);
    assert_eq!(res.unwrap_err(), Error::InvalidStake);
    assert_eq!(engine.get_game_count(), 0);
}

#[test]
fn test_play_game_defector_and_tit_for_tat() {
    let mut engine = SinglePlayerDilemma::new();
    let player = Principal(3);
    let res = engine
        .play_game(player, "C", "DEF", 20, 1, 1)
        .expect("a valid play settles");
    assert_eq!(res.ai_move, Move::Defect);
    assert_eq!(res.player_payout, 0);
    assert_eq!(res.ai_payout, 60);
    // a single round of tit-for-tat opens cooperating
    let res = engine
        .play_game(player, "C", "TFT", 20, 2, 1)
        .expect("a valid play settles");
    assert_eq!(res.ai_move, Move::Cooperate);
    assert_eq!(res.player_payout, 40);
    assert_eq!(res.ai_payout, 40);
}

#[test]
fn test_random_strategy_parity() {
    // first game id is 1, so the seed is ledger_seq * 31337: even sequence
    // numbers cooperate, odd ones defect
    let mut engine = SinglePlayerDilemma::new();
    let res = engine
        .play_game(Principal(1), "C", "RND", 10, 1, 4)
        .expect("a valid play settles");
    assert_eq!(res.ai_move, Move::Cooperate);
    assert_eq!(res.player_payout, 20);

    let mut engine = SinglePlayerDilemma::new();
    let res = engine
        .play_game(Principal(1), "C", "RND", 10, 1, 3)
        .expect("a valid play settles");
    assert_eq!(res.ai_move, Move::Defect);
    assert_eq!(res.player_payout, 0);
    assert_eq!(res.ai_payout, 30);
}

#[test]
fn test_get_game_and_result_records() {
    let mut engine = SinglePlayerDilemma::new();
    let player = Principal(9);
    engine
        .play_game(player, "D", "COOP", 25, 777, 2)
        .expect("a valid play settles");
    let game = engine.get_game(1).expect("the game is stored");
    assert_eq!(game.id, 1);
    assert_eq!(game.player, player);
    assert_eq!(game.player_move, Move::Defect);
    assert_eq!(game.ai_strategy, Strategy::Cooperator);
    assert_eq!(game.stake, 25);
    assert_eq!(game.status, GameStatus::Resolved);
    assert_eq!(game.created_at, 777);
    let result = engine.get_result(1).expect("the result is stored");
    assert_eq!(result.game_id, 1);
    assert_eq!(result.player_payout, 75);
    assert!(engine.get_game(0).is_none());
    assert!(engine.get_game(2).is_none());
    assert!(engine.get_result(2).is_none());
}

#[test]
fn test_history_chronological_suffix() {
    let mut engine = SinglePlayerDilemma::new();
    let player = Principal(4);
    for k in 0..5u64 {
        engine
            .play_game(player, "C", "COOP", 10 + k as i128, k, 1)
            .expect("a valid play settles");
    }
    let history = engine.get_player_history(player, 3);
    assert_eq!(history.len(), 3);
    assert_eq!(history[0].game_id, 3);
    assert_eq!(history[1].game_id, 4);
    assert_eq!(history[2].game_id, 5);
    assert_eq!(history[0].stake, 12);
    let all = engine.get_player_history(player, 10);
    assert_eq!(all.len(), 5);
    assert_eq!(all[0].game_id, 1);
    assert_eq!(all[4].game_id, 5);
}

#[test]
fn test_history_separates_players() {
    let mut engine = SinglePlayerDilemma::new();
    let alice = Principal(1);
    let bob = Principal(2);
    engine.play_game(alice, "C", "COOP", 10, 1, 1).expect("a valid play settles");
    engine.play_game(bob, "D", "DEF", 20, 2, 1).expect("a valid play settles");
    engine.play_game(alice, "D", "COOP", 30, 3, 1).expect("a valid play settles");
    let a = engine.get_player_history(alice, 10);
    assert_eq!(a.len(), 2);
    assert_eq!(a[0].game_id, 1);
    assert_eq!(a[1].game_id, 3);
    let b = engine.get_player_history(bob, 10);
    assert_eq!(b.len(), 1);
    assert_eq!(b[0].game_id, 2);
    assert!(engine.get_player_history(Principal(3), 10).is_empty());
}

#[test]
fn test_initialize_keeps_counter() {
    let mut engine = SinglePlayerDilemma::new();
    engine.initialize(Principal(0));
    assert_eq!(engine.get_game_count(), 0);
    engine.play_game(Principal(1), "C", "COOP", 10, 1, 1).expect("a valid play settles");
    engine.initialize(Principal(0));
    assert_eq!(engine.get_game_count(), 1);
}
