use vstd::prelude::*;
use crate::payoff::{payoff, payoff_a, payoff_b, stake_in_range};
use crate::types::{Move, Principal};

verus! {

/// A two-player game. `player2` is filled exactly once, at join time; each
/// player owns one move slot, written only by them and only until
/// resolution; `resolved` flips to true exactly once and the record never
/// changes afterwards.
#[derive(Clone, Copy, Debug)]
pub struct Game {
    pub player1: Principal,
    pub player2: Option<Principal>,
    pub move1: Option<Move>,
    pub move2: Option<Move>,
    pub stake: i128,
    pub resolved: bool,
}

#[derive(Clone, Copy, PartialEq, Eq, Structural, Debug)]
pub enum Error {
    GameNotFound,
    GameAlreadyFull,
    Unauthorized,
    GameNotReady,
    TransferFailed,
}

/// A value movement out of contract custody that the host ledger must
/// execute: `amount` stroops to the account of `to`.
#[derive(Clone, Copy, Debug)]
pub struct Payout {
    pub to: Principal,
    pub amount: i128,
}

/// Every stored game keeps its stake small enough for the payoff matrix,
/// and never carries a second move without a second player.
pub open spec fn game_inv(g: Game) -> bool {
    &&& stake_in_range(g.stake as int)
    &&& g.move2 is Some ==> g.player2 is Some
}

pub open spec fn pool_inv(games: Seq<Game>) -> bool {
    forall|i: int| 0 <= i < games.len() ==> #[trigger] game_inv(games[i])
}

/// The record a game starts from: creator set, no joiner, no moves, unresolved.
pub open spec fn fresh_game(player1: Principal, stake: i128) -> Game {
    Game { player1, player2: None, move1: None, move2: None, stake, resolved: false }
}

/// The stored game a one-based id denotes, if any.
pub open spec fn lookup(games: Seq<Game>, game_id: u64) -> Option<Game> {
    if 1 <= game_id && game_id <= games.len() {
        Some(games[game_id as int - 1])
    } else {
        None
    }
}

/// Whether a join of `game_id` is accepted, and the error when it is not:
/// absent games are not found, and a game already joined or already resolved
/// is full.
pub open spec fn join_outcome(games: Seq<Game>, game_id: u64) -> Result<(), Error> {
    match lookup(games, game_id) {
        Option::None => Err(Error::GameNotFound),
        Option::Some(g) => if g.player2 is Some || g.resolved {
            Err(Error::GameAlreadyFull)
        } else {
            Ok(())
        },
    }
}

/// A game after `player2` joined with their move.
pub open spec fn joined(g: Game, player2: Principal, mv: Move) -> Game {
    Game { player2: Some(player2), move2: Some(mv), ..g }
}

/// Whether `player` may submit a move to `game_id`: the game must exist,
/// must not be resolved, and the caller must be one of its recorded players.
pub open spec fn set_move_outcome(games: Seq<Game>, player: Principal, game_id: u64) -> Result<
    (),
    Error,
> {
    match lookup(games, game_id) {
        Option::None => Err(Error::GameNotFound),
        Option::Some(g) => if g.resolved {
            Err(Error::GameAlreadyFull)
        } else if g.player1 == player || g.player2 == Some(player) {
            Ok(())
        } else {
            Err(Error::Unauthorized)
        },
    }
}

/// The stricter rule of the escrow mode: only the creator may call, and only
/// while their move is still unset.
pub open spec fn set_move1_outcome(games: Seq<Game>, player: Principal, game_id: u64) -> Result<
    (),
    Error,
> {
    match lookup(games, game_id) {
        Option::None => Err(Error::GameNotFound),
        Option::Some(g) => if g.resolved {
            Err(Error::GameAlreadyFull)
        } else if g.player1 != player || g.move1 is Some {
            Err(Error::Unauthorized)
        } else {
            Ok(())
        },
    }
}

/// A game after `player` filled their own move slot: the creator's slot for
/// the creator, the joiner's slot otherwise.
pub open spec fn with_move(g: Game, player: Principal, mv: Move) -> Game {
    if g.player1 == player {
        Game { move1: Some(mv), ..g }
    } else {
        Game { move2: Some(mv), ..g }
    }
}

/// Whether a resolution of `game_id` is accepted and what it pays: a game
/// that is absent is not found, one already resolved is full, one missing a
/// move is not ready; otherwise the payoff matrix decides both payouts.
pub open spec fn resolve_outcome(games: Seq<Game>, game_id: u64) -> Result<(int, int), Error> {
    match lookup(games, game_id) {
        Option::None => Err(Error::GameNotFound),
        Option::Some(g) => if g.resolved {
            Err(Error::GameAlreadyFull)
        } else {
            match (g.move1, g.move2) {
                (Option::Some(m1), Option::Some(m2)) => Ok(
                    (payoff_a(m1, m2, g.stake as int), payoff_b(m1, m2, g.stake as int)),
                ),
                _ => Err(Error::GameNotReady),
            }
        },
    }
}

/// The pool after a successful resolution: the one game marked resolved,
/// every other field and every other game untouched.
pub open spec fn resolve_post(games: Seq<Game>, game_id: u64) -> Seq<Game> {
    games.update(game_id as int - 1, Game { resolved: true, ..games[game_id as int - 1] })
}

/// A game resolves at most once: after a resolution succeeds, any further
/// resolution of the same id is rejected as already full, so no payout is
/// ever computed (nor, in the escrow mode, released) twice for one game id.
pub proof fn lemma_resolve_at_most_once(games: Seq<Game>, game_id: u64)
    requires
        resolve_outcome(games, game_id) is Ok,
    ensures
        resolve_outcome(resolve_post(games, game_id), game_id) == Err::<(int, int), Error>(
            Error::GameAlreadyFull,
        ),
{
}

/// Joining a game that already has a second player, or is already resolved,
/// is always rejected as full; the engines then leave the pool untouched and
/// the escrow mode accepts no stake.
pub proof fn lemma_join_full_or_resolved_fails(games: Seq<Game>, game_id: u64)
    requires
        lookup(games, game_id) matches Some(g) && (g.player2 is Some || g.resolved),
    ensures
        join_outcome(games, game_id) == Err::<(), Error>(Error::GameAlreadyFull),
{
}

/// A principal who is neither recorded player of an open game is rejected as
/// unauthorized; the engines then leave the game untouched. (On a game
/// already resolved the same caller is rejected as full instead, and on an
/// absent id as not found.)
pub proof fn lemma_set_move_stranger_rejected(games: Seq<Game>, player: Principal, game_id: u64)
    requires
        lookup(games, game_id) matches Some(g) && !g.resolved && g.player1 != player && g.player2
            != Some(player),
    ensures
        set_move_outcome(games, player, game_id) == Err::<(), Error>(Error::Unauthorized),
{
}

/// The escrow mode is stricter still: any caller who is not the creator of
/// an open game is rejected as unauthorized, and so is the creator once
/// their move stands.
pub proof fn lemma_set_move1_stranger_rejected(games: Seq<Game>, player: Principal, game_id: u64)
    requires
        lookup(games, game_id) matches Some(g) && !g.resolved && (g.player1 != player
            || g.move1 is Some),
    ensures
        set_move1_outcome(games, player, game_id) == Err::<(), Error>(Error::Unauthorized),
{
}

/// No payout is computed before both moves are known: resolving an open game
/// that still misses a move is rejected as not ready.
pub proof fn lemma_no_resolution_before_ready(games: Seq<Game>, game_id: u64)
    requires
        lookup(games, game_id) matches Some(g) && !g.resolved && (g.move1 is None
            || g.move2 is None),
    ensures
        resolve_outcome(games, game_id) == Err::<(int, int), Error>(Error::GameNotReady),
{
}

/// The two-player engine in its no-escrow mode: it keeps the pool of games
/// and, at resolution, reports the raw payout amounts for the caller to act
/// on; no value moves through it.
pub struct PrisonersDilemma {
    games: Vec<Game>,
}

impl View for PrisonersDilemma {
    type V = Seq<Game>;

    closed spec fn view(&self) -> Seq<Game> {
        self.games@
    }
}

impl PrisonersDilemma {
    pub open spec fn wf(&self) -> bool {
        pool_inv(self@)
    }

    pub fn new() -> (s: Self)
        ensures
            s.wf(),
            s@.len() == 0,
    {
        PrisonersDilemma { games: Vec::new() }
    }

    /// Open a game. The host must have authorized the caller as `player1`.
    /// The new game takes the next sequential one-based id; ids are never
    /// reused.
    pub fn create_game(&mut self, player1: Principal, stake: i128) -> (game_id: u64)
        requires
            old(self).wf(),
            stake_in_range(stake as int),
            old(self)@.len() < u64::MAX,
        ensures
            final(self).wf(),
            game_id == old(self)@.len() + 1,
            final(self)@ == old(self)@.push(fresh_game(player1, stake)),
    {
        let g = Game {
            player1,
            player2: None,
            move1: None,
            move2: None,
            stake,
            resolved: false,
        };
        self.games.push(g);
        self.games.len() as u64
    }

    /// Enter an open game as its second player, submitting that player's
    /// move at the same time. The host must have authorized the caller as
    /// `player2`.
    pub fn join_game(&mut self, player2: Principal, game_id: u64, mv: Move) -> (r: Result<
        (),
        Error,
    >)
        requires
            old(self).wf(),
        ensures
            final(self).wf(),
            match join_outcome(old(self)@, game_id) {
                Ok(()) => r == Ok::<(), Error>(()) && final(self)@ == old(self)@.update(
                    game_id as int - 1,
                    joined(old(self)@[game_id as int - 1], player2, mv),
                ),
                Err(e) => r == Err::<(), Error>(e) && final(self)@ == old(self)@,
            },
    {
        if game_id == 0 || game_id > self.games.len() as u64 {
            return Err(Error::GameNotFound);
        }
        let idx = (game_id - 1) as usize;
        let g = self.games[idx];
        if g.player2.is_some() || g.resolved {
            return Err(Error::GameAlreadyFull);
        }
        self.games[idx] = Game { player2: Some(player2), move2: Some(mv), ..g };
        proof {
            assert forall|i: int| 0 <= i < self@.len() implies #[trigger] game_inv(self@[i]) by {
                assert(game_inv(old(self)@[i]));
            }
        }
        Ok(())
    }

    /// Submit the caller's own move. Either recorded player may call, for
    /// their own slot only; the host must have authorized the caller as
    /// `player`.
    pub fn set_move(&mut self, player: Principal, game_id: u64, mv: Move) -> (r: Result<(), Error>)
        requires
            old(self).wf(),
        ensures
            final(self).wf(),
            match set_move_outcome(old(self)@, player, game_id) {
                Ok(()) => r == Ok::<(), Error>(()) && final(self)@ == old(self)@.update(
                    game_id as int - 1,
                    with_move(old(self)@[game_id as int - 1], player, mv),
                ),
                Err(e) => r == Err::<(), Error>(e) && final(self)@ == old(self)@,
            },
    {
        if game_id == 0 || game_id > self.games.len() as u64 {
            return Err(Error::GameNotFound);
        }
        let idx = (game_id - 1) as usize;
        let g = self.games[idx];
        if g.resolved {
            return Err(Error::GameAlreadyFull);
        }
        if g.player1 == player {
            self.games[idx] = Game { move1: Some(mv), ..g };
            proof {
                assert forall|i: int| 0 <= i < self@.len() implies #[trigger] game_inv(
                    self@[i],
                ) by {
                    assert(game_inv(old(self)@[i]));
                }
            }
            Ok(())
        } else if g.player2 == Some(player) {
            self.games[idx] = Game { move2: Some(mv), ..g };
            proof {
                assert forall|i: int| 0 <= i < self@.len() implies #[trigger] game_inv(
                    self@[i],
                ) by {
                    assert(game_inv(old(self)@[i]));
                }
            }
            Ok(())
        } else {
            Err(Error::Unauthorized)
        }
    }

    /// Settle a game whose moves are both known: mark it resolved and return
    /// both payout amounts for the caller to act on. Any caller may resolve;
    /// identity gates only the mutation of a game's own fields.
    pub fn resolve_game(&mut self, game_id: u64) -> (r: Result<(i128, i128), Error>)
        requires
            old(self).wf(),
        ensures
            final(self).wf(),
            match resolve_outcome(old(self)@, game_id) {
                Ok(p) => r matches Ok(q) && q.0 == p.0 && q.1 == p.1 && final(self)@
                    == resolve_post(old(self)@, game_id),
                Err(e) => r == Err::<(i128, i128), Error>(e) && final(self)@ == old(self)@,
            },
    {
        if game_id == 0 || game_id > self.games.len() as u64 {
            return Err(Error::GameNotFound);
        }
        let idx = (game_id - 1) as usize;
        let g = self.games[idx];
        if g.resolved {
            return Err(Error::GameAlreadyFull);
        }
        let m1 = match g.move1 {
            Option::Some(m) => m,
            Option::None => { return Err(Error::GameNotReady) },
        };
        let m2 = match g.move2 {
            Option::Some(m) => m,
            Option::None => { return Err(Error::GameNotReady) },
        };
        proof {
            assert(game_inv(old(self)@[game_id as int - 1]));
        }
        let (payout1, payout2) = payoff(&m1, &m2, g.stake);
        self.games[idx] = Game { resolved: true, ..g };
        Ok((payout1, payout2))
    }

    /// Read a game's record; no authorization is required.
    pub fn get_game(&self, game_id: u64) -> (r: Option<Game>)
        ensures
            r == lookup(self@, game_id),
    {
        if game_id == 0 || game_id > self.games.len() as u64 {
            return None;
        }
        Some(self.games[(game_id - 1) as usize])
    }
}

/// The two-player engine in its escrow mode: stakes enter contract custody
/// as games are created and joined, and resolution releases the payouts.
/// The host performs the actual value transfers: each staking operation takes
/// the fate of the stake transfer as `stake_received`, and a resolution
/// reports the payouts the host must release, atomically with the call.
pub struct EscrowPrisonersDilemma {
    inner: PrisonersDilemma,
}

impl View for EscrowPrisonersDilemma {
    type V = Seq<Game>;

    closed spec fn view(&self) -> Seq<Game> {
        self.inner@
    }
}

impl EscrowPrisonersDilemma {
    pub open spec fn wf(&self) -> bool {
        pool_inv(self@)
    }

    pub fn new() -> (s: Self)
        ensures
            s.wf(),
            s@.len() == 0,
    {
        EscrowPrisonersDilemma { inner: PrisonersDilemma::new() }
    }

    /// Open a game with the creator's stake escrowed up front. The host
    /// transfers `stake` from `player1` into custody and reports the
    /// transfer's fate in `stake_received`; on a failed transfer nothing is
    /// stored and no game id is consumed.
    pub fn create_game(&mut self, player1: Principal, stake: i128, stake_received: bool) -> (r:
        Result<u64, Error>)
        requires
            old(self).wf(),
            stake_in_range(stake as int),
            old(self)@.len() < u64::MAX,
        ensures
            final(self).wf(),
            stake_received ==> (r matches Ok(id) && id == old(self)@.len() + 1 && final(self)@
                == old(self)@.push(fresh_game(player1, stake))),
            !stake_received ==> r == Err::<u64, Error>(Error::TransferFailed) && final(self)@
                == old(self)@,
    {
        if !stake_received {
            return Err(Error::TransferFailed);
        }
        Ok(self.inner.create_game(player1, stake))
    }

    /// Enter an open game as its second player, with the joiner's stake
    /// escrowed. Validation comes first, so a full or resolved game is
    /// rejected before any stake is due; on a failed stake transfer the game
    /// is left untouched.
    pub fn join_game(
        &mut self,
        player2: Principal,
        game_id: u64,
        mv: Move,
        stake_received: bool,
    ) -> (r: Result<(), Error>)
        requires
            old(self).wf(),
        ensures
            final(self).wf(),
            match join_outcome(old(self)@, game_id) {
                Ok(()) => if stake_received {
                    r == Ok::<(), Error>(()) && final(self)@ == old(self)@.update(
                        game_id as int - 1,
                        joined(old(self)@[game_id as int - 1], player2, mv),
                    )
                } else {
                    r == Err::<(), Error>(Error::TransferFailed) && final(self)@ == old(self)@
                },
                Err(e) => r == Err::<(), Error>(e) && final(self)@ == old(self)@,
            },
    {
        match self.inner.get_game(game_id) {
            Option::None => {
                return Err(Error::GameNotFound);
            },
            Option::Some(g) => {
                if g.player2.is_some() || g.resolved {
                    return Err(Error::GameAlreadyFull);
                }
            },
        }
        if !stake_received {
            return Err(Error::TransferFailed);
        }
        self.inner.join_game(player2, game_id, mv)
    }

    /// Submit the creator's move, allowed once: the escrow mode rejects any
    /// caller but `player1`, and any second attempt.
    pub fn set_move1(&mut self, player: Principal, game_id: u64, mv: Move) -> (r: Result<
        (),
        Error,
    >)
        requires
            old(self).wf(),
        ensures
            final(self).wf(),
            match set_move1_outcome(old(self)@, player, game_id) {
                Ok(()) => r == Ok::<(), Error>(()) && final(self)@ == old(self)@.update(
                    game_id as int - 1,
                    with_move(old(self)@[game_id as int - 1], player, mv),
                ),
                Err(e) => r == Err::<(), Error>(e) && final(self)@ == old(self)@,
            },
    {
        match self.inner.get_game(game_id) {
            Option::None => {
                return Err(Error::GameNotFound);
            },
            Option::Some(g) => {
                if g.resolved {
                    return Err(Error::GameAlreadyFull);
                }
                if !(g.player1 == player) || g.move1.is_some() {
                    return Err(Error::Unauthorized);
                }
            },
        }
        self.inner.set_move(player, game_id, mv)
    }

    /// Settle a game whose moves are both known: mark it resolved and report
    /// the two payouts the host must release from custody, the creator's
    /// first. Funds leave custody at most once per game id, since a second
    /// resolution of the same id is rejected.
    pub fn resolve_game(&mut self, game_id: u64) -> (r: Result<(Payout, Payout), Error>)
        requires
            old(self).wf(),
        ensures
            final(self).wf(),
            match resolve_outcome(old(self)@, game_id) {
                Ok(p) => lookup(old(self)@, game_id) matches Some(g) && r matches Ok(q) && q.0.to
                    == g.player1 && q.0.amount == p.0 && Some(q.1.to) == g.player2 && q.1.amount
                    == p.1 && final(self)@ == resolve_post(old(self)@, game_id),
                Err(e) => r == Err::<(Payout, Payout), Error>(e) && final(self)@ == old(self)@,
            },
    {
        let g = match self.inner.get_game(game_id) {
            Option::None => {
                return Err(Error::GameNotFound);
            },
            Option::Some(g) => g,
        };
        match self.inner.resolve_game(game_id) {
            Result::Err(e) => Err(e),
            Result::Ok(p) => {
                proof {
                    assert(game_inv(old(self)@[game_id as int - 1]));
                }
                match g.player2 {
                    Option::Some(pl2) => Ok(
                        (
                            Payout { to: g.player1, amount: p.0 },
                            Payout { to: pl2, amount: p.1 },
                        ),
                    ),
                    Option::None => {
                        // unreachable: a resolvable game has its second move,
                        // and with it its second player
                        proof {
                            assert(false);
                        }
                        Err(Error::GameNotReady)
                    },
                }
            },
        }
    }

    /// Read a game's record; no authorization is required.
    pub fn get_game(&self, game_id: u64) -> (r: Option<Game>)
        ensures
            r == lookup(self@, game_id),
    {
        self.inner.get_game(game_id)
    }
}

} // verus!
