use vstd::prelude::*;
use vstd::string::StrSliceExecFns;

verus! {

/// An authenticated identity, as the host ledger numbers its accounts.
#[derive(Clone, Copy, PartialEq, Eq, Structural, Debug)]
pub struct Principal(pub u64);

/// A player's choice in a round.
#[derive(Clone, Copy, PartialEq, Eq, Structural, Debug)]
pub enum Move {
    Cooperate,
    Defect,
}

/// The synthetic opponent's strategy.
#[derive(Clone, Copy, PartialEq, Eq, Structural, Debug)]
pub enum Strategy {
    Random,
    Cooperator,
    Defector,
    TitForTat,
}

/// The move a tag names: "C" for Cooperate, "D" for Defect.
pub open spec fn parse_move_spec(tag: Seq<char>) -> Option<Move> {
    if tag.len() == 1 && tag[0] == 'C' {
        Some(Move::Cooperate)
    } else if tag.len() == 1 && tag[0] == 'D' {
        Some(Move::Defect)
    } else {
        None
    }
}

/// The strategy a tag names: "RND", "COOP", "DEF" or "TFT".
pub open spec fn parse_strategy_spec(tag: Seq<char>) -> Option<Strategy> {
    if tag.len() == 3 && tag[0] == 'R' && tag[1] == 'N' && tag[2] == 'D' {
        Some(Strategy::Random)
    } else if tag.len() == 4 && tag[0] == 'C' && tag[1] == 'O' && tag[2] == 'O' && tag[3] == 'P' {
        Some(Strategy::Cooperator)
    } else if tag.len() == 3 && tag[0] == 'D' && tag[1] == 'E' && tag[2] == 'F' {
        Some(Strategy::Defector)
    } else if tag.len() == 3 && tag[0] == 'T' && tag[1] == 'F' && tag[2] == 'T' {
        Some(Strategy::TitForTat)
    } else {
        None
    }
}

pub fn parse_move(tag: &str) -> (r: Option<Move>)
    ensures
        r == parse_move_spec(tag@),
{
    let n = tag.unicode_len();
    if n == 1 {
        let c = tag.get_char(0);
        if c == 'C' {
            Some(Move::Cooperate)
        } else if c == 'D' {
            Some(Move::Defect)
        } else {
            None
        }
    } else {
        None
    }
}

pub fn parse_strategy(tag: &str) -> (r: Option<Strategy>)
    ensures
        r == parse_strategy_spec(tag@),
{
    let n = tag.unicode_len();
    if n == 3 {
        let c0 = tag.get_char(0);
        let c1 = tag.get_char(1);
        let c2 = tag.get_char(2);
        if c0 == 'R' && c1 == 'N' && c2 == 'D' {
            Some(Strategy::Random)
        } else if c0 == 'D' && c1 == 'E' && c2 == 'F' {
            Some(Strategy::Defector)
        } else if c0 == 'T' && c1 == 'F' && c2 == 'T' {
            Some(Strategy::TitForTat)
        } else {
            None
        }
    } else if n == 4 {
        let c0 = tag.get_char(0);
        let c1 = tag.get_char(1);
        let c2 = tag.get_char(2);
        let c3 = tag.get_char(3);
        if c0 == 'C' && c1 == 'O' && c2 == 'O' && c3 == 'P' {
            Some(Strategy::Cooperator)
        } else {
            None
        }
    } else {
        None
    }
}

} // verus!
