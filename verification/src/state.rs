use vstd::prelude::*;

pub mod player_seat;
pub mod poker_game;
pub mod poker_table;

verus! {

/// The phase of a hand. A hand moves through the stages in the order in
/// which they are listed here and never moves back.
#[derive(Clone, Copy, Debug, PartialEq, Eq, Structural)]
pub enum GameStage {
    /// Cards are being committed, blinded and assigned.
    Waiting,
    /// First betting round, after the hole cards are out.
    PreFlop,
    /// Betting round with three community cards visible.
    Flop,
    /// Betting round with four community cards visible.
    Turn,
    /// Betting round with all five community cards visible.
    River,
    /// Betting is over; the winner is being determined.
    Showdown,
    /// The hand is over.
    Finished,
}

impl GameStage {
    /// Position of the stage in the order of play, `0` for `Waiting` up to
    /// `6` for `Finished`.
    pub open spec fn rank(self) -> int {
        match self {
            GameStage::Waiting => 0,
            GameStage::PreFlop => 1,
            GameStage::Flop => 2,
            GameStage::Turn => 3,
            GameStage::River => 4,
            GameStage::Showdown => 5,
            GameStage::Finished => 6,
        }
    }

    /// The stage whose rank is `rank`, for a rank between 0 and 6.
    pub open spec fn of_rank(rank: int) -> GameStage {
        if rank <= 0 {
            GameStage::Waiting
        } else if rank == 1 {
            GameStage::PreFlop
        } else if rank == 2 {
            GameStage::Flop
        } else if rank == 3 {
            GameStage::Turn
        } else if rank == 4 {
            GameStage::River
        } else if rank == 5 {
            GameStage::Showdown
        } else {
            GameStage::Finished
        }
    }

    /// The stage that follows this one; `Finished` has none.
    pub open spec fn successor(self) -> Option<GameStage> {
        if self is Finished {
            None
        } else {
            Some(GameStage::of_rank(self.rank() + 1))
        }
    }

    /// Whether bets can be placed in this stage.
    pub open spec fn is_betting(self) -> bool {
        self is PreFlop || self is Flop || self is Turn || self is River
    }

    /// How many community cards are visible during this stage.
    pub open spec fn community_count(self) -> int {
        match self {
            GameStage::Flop => 3,
            GameStage::Turn => 4,
            GameStage::River => 5,
            _ => 0,
        }
    }

    /// The stage that follows this one in the order of play.
    pub fn next(&self) -> (r: Option<GameStage>)
        ensures
            r == self.successor(),
            r matches Some(n) ==> n.rank() == self.rank() + 1,
            r is None <==> *self is Finished,
    {
        match self {
            GameStage::Waiting => Some(GameStage::PreFlop),
            GameStage::PreFlop => Some(GameStage::Flop),
            GameStage::Flop => Some(GameStage::Turn),
            GameStage::Turn => Some(GameStage::River),
            GameStage::River => Some(GameStage::Showdown),
            GameStage::Showdown => Some(GameStage::Finished),
            GameStage::Finished => None,
        }
    }

    /// The number of community cards that are visible once this stage is
    /// entered: three on the flop, four on the turn, five on the river, and
    /// none in the stages without a betting round on the board.
    pub fn community_cards_to_reveal(&self) -> (n: u8)
        ensures
            n == self.community_count(),
    {
        match self {
            GameStage::Flop => 3,
            GameStage::Turn => 4,
            GameStage::River => 5,
            _ => 0,
        }
    }
}

/// What a player can do when it is their turn.
#[derive(Clone, Copy, Debug, PartialEq, Eq, Structural)]
pub enum BetAction {
    Fold,
    Check,
    Call,
    Raise,
    AllIn,
}

impl BetAction {
    /// The action that a wire code stands for: 0 fold, 1 check, 2 call,
    /// 3 raise, 4 all-in. Other codes stand for nothing.
    pub open spec fn decode(code: u8) -> Option<BetAction> {
        if code == 0 {
            Some(BetAction::Fold)
        } else if code == 1 {
            Some(BetAction::Check)
        } else if code == 2 {
            Some(BetAction::Call)
        } else if code == 3 {
            Some(BetAction::Raise)
        } else if code == 4 {
            Some(BetAction::AllIn)
        } else {
            None
        }
    }

    /// Reads an action from its wire code.
    pub fn from_code(code: u8) -> (r: Option<BetAction>)
        ensures
            r == BetAction::decode(code),
    {
        match code {
            0 => Some(BetAction::Fold),
            1 => Some(BetAction::Check),
            2 => Some(BetAction::Call),
            3 => Some(BetAction::Raise),
            4 => Some(BetAction::AllIn),
            _ => None,
        }
    }
}

/// A reference to an encrypted value. Holding the handle reveals nothing of
/// the plaintext; the library only stores handles and passes them on.
#[derive(Clone, Copy, Debug, PartialEq, Eq, Structural)]
pub struct Handle(pub u128);

} // verus!
