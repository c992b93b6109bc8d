use vstd::prelude::*;

use crate::PlayerNo;

verus! {

/// A player as a client sees it.
#[derive(Debug, Clone, Copy)]
pub struct Player {
    player_num: PlayerNo,
    total_score: u32,
    in_turn: bool,
    letter_sack: [char; 7],
}

impl Player {
    pub closed spec fn number(&self) -> PlayerNo {
        self.player_num
    }

    pub closed spec fn score(&self) -> u32 {
        self.total_score
    }

    pub closed spec fn is_in_turn(&self) -> bool {
        self.in_turn
    }

    pub closed spec fn letters(&self) -> Seq<char> {
        self.letter_sack@
    }

    /// A new player with the seven letters it drew, no score, and not in turn.
    pub fn new(p: PlayerNo, l_s: [char; 7]) -> (player: Self)
        ensures
            player.number() == p,
            player.score() == 0,
            !player.is_in_turn(),
            player.letters() == l_s@,
    {
        Player { player_num: p, total_score: 0, in_turn: false, letter_sack: l_s }
    }
}

} // verus!
