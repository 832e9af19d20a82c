//! Whose turn it is.

use vstd::prelude::*;
use crate::board::PlayerColor;

verus! {

/// The player to move once `n` pieces have been placed in alternation, Red
/// having placed the first.
pub open spec fn turn_after(n: nat) -> PlayerColor {
    if n % 2 == 0 {
        PlayerColor::Red
    } else {
        PlayerColor::Blue
    }
}

/// Holds the colour of the player to move next.
pub struct TurnTracker {
    current: PlayerColor,
}

impl View for TurnTracker {
    type V = PlayerColor;

    closed spec fn view(&self) -> PlayerColor {
        self.current
    }
}

impl TurnTracker {
    /// A tracker at the start of a game: Red moves first.
    pub fn new() -> (tracker: TurnTracker)
        ensures
            tracker@ == PlayerColor::Red,
    {
        TurnTracker { current: PlayerColor::Red }
    }

    /// The player to move.
    pub fn current(&self) -> (color: PlayerColor)
        ensures
            color == self@,
    {
        self.current
    }

    /// Hands the turn to the other player.
    pub fn advance(&mut self)
        ensures
            final(self)@ == old(self)@.opponent(),
    {
        self.current = match self.current {
            PlayerColor::Red => PlayerColor::Blue,
            PlayerColor::Blue => PlayerColor::Red,
        }
    }
}

impl Default for TurnTracker {
    fn default() -> (tracker: TurnTracker)
        ensures
            tracker@ == PlayerColor::Red,
    {
        TurnTracker::new()
    }
}

/// Turns alternate: a tracker that starts with Red shows, after `n` changes
/// of turn, Red when `n` is even and Blue when `n` is odd. Stated as one
/// step: if the tracker agrees with `turn_after(n)`, then one more change of
/// turn makes it agree with `turn_after(n + 1)`; and `turn_after(0)` is Red.
pub proof fn lemma_turn_alternates(n: nat)
    ensures
        turn_after(0) == PlayerColor::Red,
        turn_after(n + 1) == turn_after(n).opponent(),
        turn_after(n) == PlayerColor::Red <==> n % 2 == 0,
        turn_after(n) == PlayerColor::Blue <==> n % 2 == 1,
{
}

} // verus!
