use vstd::prelude::*;
use vstd::arithmetic::mul::{lemma_mul_inequality, lemma_mul_upper_bound};
use crate::payoff::{payoff, payoff_a, payoff_b, stake_in_range, MAX_PAYOFF_STAKE};
use crate::types::{
    parse_move, parse_move_spec, parse_strategy, parse_strategy_spec, Move, Principal, Strategy,
};

verus! {

#[derive(Clone, Copy, PartialEq, Eq, Structural, Debug)]
pub enum Error {
    GameNotFound,
    GameAlreadyResolved,
    InvalidMove,
    InvalidStrategy,
    InvalidStake,
    Unauthorized,
    AuthFailed,
    InsufficientBalance,
    TransferFailed,
    ContractInvokeFailed,
    InternalError,
}

#[derive(Clone, Copy, PartialEq, Eq, Structural, Debug)]
pub enum GameStatus {
    Pending,
    Resolved,
}

/// A single-player game record. Games of this engine are created and
/// resolved in one atomic operation, so a stored record is always resolved.
#[derive(Clone, Copy, Debug)]
pub struct Game {
    pub id: u64,
    pub player: Principal,
    pub player_move: Move,
    pub ai_strategy: Strategy,
    pub stake: i128,
    pub status: GameStatus,
    pub created_at: u64,
}

/// The settled outcome of a single-player game.
#[derive(Clone, Copy, Debug)]
pub struct GameResult {
    pub player: Principal,
    pub player_move: Move,
    pub ai_move: Move,
    pub ai_strategy: Strategy,
    pub stake: i128,
    pub player_payout: i128,
    pub ai_payout: i128,
    pub resolved_at: u64,
    pub game_id: u64,
}

/// The seed of the Random strategy: the game id, the ledger sequence number
/// and a fixed odd constant multiplied out and truncated to 64 bits. It is
/// deterministic and predictable by anyone who can predict the sequence
/// number; the scheme is accepted as a cosmetic single-player opponent, not
/// as a source of real randomness.
pub open spec fn random_seed(game_id: u64, ledger_seq: u32) -> int {
    ((game_id as int) * (ledger_seq as int) * 31337) % 0x10000000000000000
}

/// The synthetic opponent's move: Cooperator and (in a single round)
/// TitForTat cooperate, Defector defects, and Random goes by the parity of
/// its seed, even for Cooperate and odd for Defect.
pub open spec fn ai_move_spec(game_id: u64, strategy: Strategy, ledger_seq: u32) -> Move {
    match strategy {
        Strategy::Cooperator => Move::Cooperate,
        Strategy::Defector => Move::Defect,
        Strategy::TitForTat => Move::Cooperate,
        Strategy::Random => if random_seed(game_id, ledger_seq) % 2 == 0 {
            Move::Cooperate
        } else {
            Move::Defect
        },
    }
}

/// Why a play is rejected, if it is: an unknown move tag, then an unknown
/// strategy tag, then a stake that is not positive or whose payouts would
/// not fit in an i128.
pub open spec fn play_error(player_move: Seq<char>, ai_strategy: Seq<char>, stake: i128) -> Option<
    Error,
> {
    if parse_move_spec(player_move) is None {
        Some(Error::InvalidMove)
    } else if parse_strategy_spec(ai_strategy) is None {
        Some(Error::InvalidStrategy)
    } else if stake <= 0 || !stake_in_range(stake as int) {
        Some(Error::InvalidStake)
    } else {
        None
    }
}

pub open spec fn distinct_principals(players: Seq<Principal>) -> bool {
    forall|a: int, b: int| 0 <= a < b < players.len() ==> players[a] != players[b]
}

/// In a sequence of pairwise distinct principals, any position holding `p`
/// is the position `index_of` picks.
proof fn lemma_index_of_unique(players: Seq<Principal>, i: int, p: Principal)
    requires
        distinct_principals(players),
        0 <= i < players.len(),
        players[i] == p,
    ensures
        players.contains(p),
        players.index_of(p) == i,
{
    assert(players.contains(p));
    let j = players.index_of(p);
    assert(0 <= j < players.len() && players[j] == p);
    if i < j {
        assert(players[i] != players[j]);
    } else if j < i {
        assert(players[j] != players[i]);
    }
}

/// The single-player engine: each play creates and settles one game against
/// the synthetic opponent, records the game and its result under the next
/// sequential id, and appends the id to the calling player's history.
pub struct SinglePlayerDilemma {
    games: Vec<Game>,
    results: Vec<GameResult>,
    history_players: Vec<Principal>,
    history_ids: Vec<Vec<u64>>,
}

impl SinglePlayerDilemma {
    pub closed spec fn spec_games(&self) -> Seq<Game> {
        self.games@
    }

    pub closed spec fn spec_results(&self) -> Seq<GameResult> {
        self.results@
    }

    /// The ids of the games `p` has played, oldest first.
    pub closed spec fn history(&self, p: Principal) -> Seq<u64> {
        if self.history_players@.contains(p) {
            self.history_ids@[self.history_players@.index_of(p)]@
        } else {
            Seq::empty()
        }
    }

    /// Games and results sit in step under one-based sequential ids, each
    /// player has at most one history list, and every recorded id resolves
    /// to a stored result.
    pub closed spec fn wf(&self) -> bool {
        &&& self.games@.len() == self.results@.len()
        &&& self.games@.len() <= u64::MAX
        &&& forall|i: int| 0 <= i < self.games@.len() ==> (#[trigger] self.games@[i]).id == i + 1
        &&& forall|i: int|
            0 <= i < self.results@.len() ==> (#[trigger] self.results@[i]).game_id == i + 1
        &&& self.history_players@.len() == self.history_ids@.len()
        &&& distinct_principals(self.history_players@)
        &&& forall|i: int, j: int|
            0 <= i < self.history_ids@.len() && 0 <= j < self.history_ids@[i]@.len() ==> 1 <= (
            #[trigger] self.history_ids@[i]@[j]) <= self.results@.len()
    }

    pub fn new() -> (s: Self)
        ensures
            s.wf(),
            s.spec_games().len() == 0,
            s.spec_results().len() == 0,
            forall|p: Principal| #[trigger] s.history(p) == Seq::<u64>::empty(),
    {
        SinglePlayerDilemma {
            games: Vec::new(),
            results: Vec::new(),
            history_players: Vec::new(),
            history_ids: Vec::new(),
        }
    }

    /// One-time setup. The host must have authorized the caller as the
    /// contract's admin. The game counter starts at zero and a repeated call
    /// changes nothing: in particular it never resets an existing counter.
    pub fn initialize(&mut self, _admin: Principal)
        requires
            old(self).wf(),
        ensures
            final(self).wf(),
            final(self).spec_games() == old(self).spec_games(),
            final(self).spec_results() == old(self).spec_results(),
            forall|q: Principal| final(self).history(q) == #[trigger] old(self).history(q),
    {
    }

    /// Whether a move tag is one this engine accepts.
    pub fn validate_move(tag: &str) -> (r: Result<(), Error>)
        ensures
            r == if parse_move_spec(tag@) is Some {
                Ok::<(), Error>(())
            } else {
                Err::<(), Error>(Error::InvalidMove)
            },
    {
        match parse_move(tag) {
            Option::Some(_) => Ok(()),
            Option::None => Err(Error::InvalidMove),
        }
    }

    /// Whether a strategy tag is one this engine accepts.
    pub fn validate_strategy(tag: &str) -> (r: Result<(), Error>)
        ensures
            r == if parse_strategy_spec(tag@) is Some {
                Ok::<(), Error>(())
            } else {
                Err::<(), Error>(Error::InvalidStrategy)
            },
    {
        match parse_strategy(tag) {
            Option::Some(_) => Ok(()),
            Option::None => Err(Error::InvalidStrategy),
        }
    }

    /// The synthetic opponent's move for one game, deterministic in the game
    /// id, the strategy and the ledger sequence number, so that anyone can
    /// recompute it.
    pub fn generate_ai_move(game_id: u64, strategy: &Strategy, ledger_seq: u32) -> (m: Move)
        ensures
            m == ai_move_spec(game_id, *strategy, ledger_seq),
    {
        match strategy {
            Strategy::Cooperator => Move::Cooperate,
            Strategy::Defector => Move::Defect,
            Strategy::TitForTat => Move::Cooperate,
            Strategy::Random => {
                let a: u128 = game_id as u128;
                let b: u128 = ledger_seq as u128;
                proof {
                    lemma_mul_upper_bound(a as int, u64::MAX as int, b as int, u32::MAX as int);
                    lemma_mul_inequality(
                        (a as int) * (b as int),
                        (u64::MAX as int) * (u32::MAX as int),
                        31337,
                    );
                }
                let prod: u128 = a.wrapping_mul(b).wrapping_mul(31337);
                let seed: u64 = (prod % 0x10000000000000000u128) as u64;
                if seed % 2 == 0 {
                    Move::Cooperate
                } else {
                    Move::Defect
                }
            },
        }
    }

    /// Both payouts of one round, the player's first, then the opponent's.
    pub fn calculate_payouts(player_move: &Move, ai_move: &Move, stake: i128) -> (r: (i128, i128))
        requires
            stake_in_range(stake as int),
        ensures
            r.0 == payoff_a(*player_move, *ai_move, stake as int),
            r.1 == payoff_b(*player_move, *ai_move, stake as int),
    {
        payoff(player_move, ai_move, stake)
    }

    /// Read a game's record; no authorization is required.
    pub fn get_game(&self, game_id: u64) -> (r: Option<Game>)
        ensures
            r == if 1 <= game_id && game_id <= self.spec_games().len() {
                Some(self.spec_games()[game_id as int - 1])
            } else {
                None::<Game>
            },
    {
        if game_id == 0 || game_id > self.games.len() as u64 {
            return None;
        }
        Some(self.games[(game_id - 1) as usize])
    }

    /// Read a game's settled result; no authorization is required.
    pub fn get_result(&self, game_id: u64) -> (r: Option<GameResult>)
        ensures
            r == if 1 <= game_id && game_id <= self.spec_results().len() {
                Some(self.spec_results()[game_id as int - 1])
            } else {
                None::<GameResult>
            },
    {
        if game_id == 0 || game_id > self.results.len() as u64 {
            return None;
        }
        Some(self.results[(game_id - 1) as usize])
    }

    /// The position of `player`'s history list, if one exists yet.
    fn find_player(players: &Vec<Principal>, player: Principal) -> (r: Option<usize>)
        ensures
            match r {
                Some(i) => i < players@.len() && players@[i as int] == player,
                None => !players@.contains(player),
            },
    {
        let mut i: usize = 0;
        while i < players.len()
            invariant
                i <= players@.len(),
                forall|j: int| 0 <= j < i ==> players@[j] != player,
            decreases players@.len() - i,
        {
            if players[i] == player {
                return Some(i);
            }
            i += 1;
        }
        None
    }

    /// Play one game against the synthetic opponent: validate the tags and
    /// the stake, allocate the next sequential game id, derive the
    /// opponent's move, settle both payouts, record the game and its result,
    /// and append the id to the caller's history. The host must have
    /// authorized the caller as `player` and supplies its clock reading in
    /// `now` and its sequence number in `ledger_seq`. On any rejection
    /// nothing changes, the game counter included.
    pub fn play_game(
        &mut self,
        player: Principal,
        player_move: &str,
        ai_strategy: &str,
        stake: i128,
        now: u64,
        ledger_seq: u32,
    ) -> (r: Result<GameResult, Error>)
        requires
            old(self).wf(),
            old(self).spec_games().len() < u64::MAX,
        ensures
            final(self).wf(),
            match play_error(player_move@, ai_strategy@, stake) {
                Some(e) => {
                    &&& r == Err::<GameResult, Error>(e)
                    &&& final(self).spec_games() == old(self).spec_games()
                    &&& final(self).spec_results() == old(self).spec_results()
                    &&& forall|q: Principal|
                        final(self).history(q) == #[trigger] old(self).history(q)
                },
                None => parse_move_spec(player_move@) matches Some(mv) && parse_strategy_spec(
                    ai_strategy@,
                ) matches Some(strat) && ({
                    let id = (old(self).spec_games().len() + 1) as u64;
                    let ai = ai_move_spec(id, strat, ledger_seq);
                    &&& r matches Ok(res)
                    &&& res.game_id == id
                    &&& res.player == player
                    &&& res.player_move == mv
                    &&& res.ai_move == ai
                    &&& res.ai_strategy == strat
                    &&& res.stake == stake
                    &&& res.player_payout == payoff_a(mv, ai, stake as int)
                    &&& res.ai_payout == payoff_b(mv, ai, stake as int)
                    &&& res.resolved_at == now
                    &&& final(self).spec_games() == old(self).spec_games().push(
                        Game {
                            id,
                            player,
                            player_move: mv,
                            ai_strategy: strat,
                            stake,
                            status: GameStatus::Resolved,
                            created_at: now,
                        },
                    )
                    &&& final(self).spec_results() == old(self).spec_results().push(res)
                    &&& final(self).history(player) == old(self).history(player).push(id)
                    &&& forall|q: Principal|
                        q != player ==> final(self).history(q) == #[trigger] old(self).history(q)
                }),
            },
    {
        let mv = match parse_move(player_move) {
            Option::Some(m) => m,
            Option::None => {
                return Err(Error::InvalidMove);
            },
        };
        let strat = match parse_strategy(ai_strategy) {
            Option::Some(s) => s,
            Option::None => {
                return Err(Error::InvalidStrategy);
            },
        };
        if stake <= 0 || stake > MAX_PAYOFF_STAKE {
            return Err(Error::InvalidStake);
        }
        let game_id = (self.games.len() as u64) + 1;
        let ai_move = Self::generate_ai_move(game_id, &strat, ledger_seq);
        let (player_payout, ai_payout) = payoff(&mv, &ai_move, stake);
        let game = Game {
            id: game_id,
            player,
            player_move: mv,
            ai_strategy: strat,
            stake,
            status: GameStatus::Resolved,
            created_at: now,
        };
        self.games.push(game);
        let result = GameResult {
            player,
            player_move: mv,
            ai_move,
            ai_strategy: strat,
            stake,
            player_payout,
            ai_payout,
            resolved_at: now,
            game_id,
        };
        self.results.push(result);
        match Self::find_player(&self.history_players, player) {
            Option::Some(hidx) => {
                proof {
                    lemma_index_of_unique(self.history_players@, hidx as int, player);
                }
                self.history_ids[hidx].push(game_id);
                proof {
                    assert forall|q: Principal| q != player implies self.history(q)
                        == #[trigger] old(self).history(q) by {
                        if self.history_players@.contains(q) {
                            let j = self.history_players@.index_of(q);
                            assert(self.history_players@[j] == q);
                            assert(j != hidx as int);
                        }
                    }
                    assert forall|i2: int, j2: int|
                        0 <= i2 < self.history_ids@.len() && 0 <= j2
                            < self.history_ids@[i2]@.len() implies 1 <= (
                    #[trigger] self.history_ids@[i2]@[j2]) <= self.results@.len() by {
                        if i2 == hidx as int {
                            if j2 < old(self).history_ids@[i2]@.len() {
                                assert(1 <= old(self).history_ids@[i2]@[j2] <= old(
                                    self,
                                ).results@.len());
                            }
                        } else {
                            assert(1 <= old(self).history_ids@[i2]@[j2] <= old(
                                self,
                            ).results@.len());
                        }
                    }
                }
            },
            Option::None => {
                let mut fresh_ids: Vec<u64> = Vec::new();
                fresh_ids.push(game_id);
                self.history_players.push(player);
                self.history_ids.push(fresh_ids);
                proof {
                    let l = old(self).history_players@.len() as int;
                    lemma_index_of_unique(self.history_players@, l, player);
                    assert(old(self).history(player) =~= Seq::<u64>::empty());
                    assert(self.history(player) =~= old(self).history(player).push(game_id));
                    assert forall|q: Principal| q != player implies self.history(q)
                        == #[trigger] old(self).history(q) by {
                        if old(self).history_players@.contains(q) {
                            let j = old(self).history_players@.index_of(q);
                            assert(old(self).history_players@[j] == q);
                            assert(self.history_players@[j] == q);
                            lemma_index_of_unique(self.history_players@, j, q);
                            lemma_index_of_unique(old(self).history_players@, j, q);
                        } else {
                            assert(!self.history_players@.contains(q)) by {
                                if self.history_players@.contains(q) {
                                    let k = choose|k: int|
                                        0 <= k < self.history_players@.len()
                                            && self.history_players@[k] == q;
                                    assert(old(self).history_players@[k] == q);
                                }
                            }
                        }
                    }
                    assert forall|i2: int, j2: int|
                        0 <= i2 < self.history_ids@.len() && 0 <= j2
                            < self.history_ids@[i2]@.len() implies 1 <= (
                    #[trigger] self.history_ids@[i2]@[j2]) <= self.results@.len() by {
                        if i2 < old(self).history_ids@.len() {
                            assert(1 <= old(self).history_ids@[i2]@[j2] <= old(
                                self,
                            ).results@.len());
                        } else {
                            assert(self.history_ids@[i2]@ =~= Seq::<u64>::empty().push(game_id));
                        }
                    }
                }
            },
        }
        proof {
            assert forall|i2: int| 0 <= i2 < self.games@.len() implies (
            #[trigger] self.games@[i2]).id == i2 + 1 by {
                if i2 < old(self).games@.len() {
                    assert((old(self).games@[i2]).id == i2 + 1);
                }
            }
            assert forall|i2: int| 0 <= i2 < self.results@.len() implies (
            #[trigger] self.results@[i2]).game_id == i2 + 1 by {
                if i2 < old(self).results@.len() {
                    assert((old(self).results@[i2]).game_id == i2 + 1);
                }
            }
        }
        Ok(result)
    }

    /// The caller's most recent games, oldest first: the suffix of the
    /// player's history of length `limit` (or the whole history where it is
    /// shorter), each id resolved to its stored result. Every recorded id
    /// has a result, so nothing is skipped; no authorization is required.
    pub fn get_player_history(&self, player: Principal, limit: u32) -> (r: Vec<GameResult>)
        requires
            self.wf(),
        ensures
            ({
                let ids = self.history(player);
                let n: int = if ids.len() <= limit { ids.len() as int } else { limit as int };
                &&& r@.len() == n
                &&& forall|j: int|
                    0 <= j < n ==> #[trigger] r@[j] == self.spec_results()[ids[ids.len() - n + j]
                        - 1]
            }),
    {
        let mut out: Vec<GameResult> = Vec::new();
        let hidx = match Self::find_player(&self.history_players, player) {
            Option::Some(i) => i,
            Option::None => {
                return out;
            },
        };
        proof {
            lemma_index_of_unique(self.history_players@, hidx as int, player);
        }
        let ids = &self.history_ids[hidx];
        let len = ids.len();
        let total = self.results.len();
        let limit_us = limit as usize;
        let start = if len > limit_us {
            len - limit_us
        } else {
            0
        };
        let mut i = start;
        while i < len
            invariant
                self.wf(),
                hidx < self.history_ids@.len(),
                ids@ == self.history_ids@[hidx as int]@,
                len == ids@.len(),
                total == self.spec_results().len(),
                start <= i <= len,
                out@.len() == i - start,
                forall|j: int|
                    0 <= j < i - start ==> #[trigger] out@[j] == self.spec_results()[ids@[start + j]
                        - 1],
            decreases len - i,
        {
            let gid = ids[i];
            proof {
                assert(gid == self.history_ids@[hidx as int]@[i as int]);
                assert(1 <= gid && gid <= self.results@.len());
            }
            let gidm1 = (gid - 1) as usize;
            proof {
                assert(gidm1 == gid - 1);
            }
            let res = self.results[gidm1];
            out.push(res);
            i += 1;
        }
        out
    }

    /// How many games have been played, across all players.
    pub fn get_game_count(&self) -> (r: u64)
        requires
            self.wf(),
        ensures
            r == self.spec_games().len(),
    {
        self.games.len() as u64
    }
}

} // verus!
