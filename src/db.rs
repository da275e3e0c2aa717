use vstd::prelude::*;

verus! {

/// One move of a game's history, as stored.
#[derive(Debug, Clone, PartialEq, Eq)]
pub struct Move {
    pub move_notation: String,
    pub turn: u32,
    pub player: String,
}

/// The number of votes that a move has received.
#[derive(Debug, Clone, PartialEq, Eq)]
pub struct Vote {
    pub move_notation: String,
    pub votes: u32,
}

} // verus!
