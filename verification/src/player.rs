//! The two players and the contents of a board cell.

use vstd::prelude::*;

verus! {

/// One of the two players of a game.
#[derive(Clone, Copy, PartialEq, Eq, Structural, Debug)]
pub enum Player {
    X,
    O,
}

impl Player {
    /// The other player.
    pub open spec fn opponent_spec(self) -> Player {
        match self {
            Player::X => Player::O,
            Player::O => Player::X,
        }
    }

    /// The other player: X for O and O for X.
    #[verifier::when_used_as_spec(opponent_spec)]
    pub fn opponent(self) -> (r: Player)
        ensures
            r == self.opponent_spec(),
    {
        match self {
            Player::X => Player::O,
            Player::O => Player::X,
        }
    }
}

/// `opponent` is a total involution: applied twice it returns its argument.
pub proof fn lemma_opponent_involution(p: Player)
    ensures
        p.opponent_spec().opponent_spec() == p,
        p.opponent_spec() != p,
{
}

/// The contents of one board position: empty, or held by a player.
#[derive(Clone, Copy, PartialEq, Eq, Structural, Debug)]
pub enum Cell {
    Empty,
    Occupied(Player),
}

impl Default for Cell {
    /// A cell starts out empty.
    fn default() -> (r: Cell)
        ensures
            r == Cell::Empty,
    {
        Cell::Empty
    }
}

} // verus!
