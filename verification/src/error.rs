use vstd::prelude::*;

verus! {

/// Every way in which a transition of the hand can be refused.
#[derive(Clone, Copy, Debug, PartialEq, Eq, Structural)]
pub enum PokerError {
    InvalidBuyIn,
    TableFull,
    NotEnoughPlayers,
    GameInProgress,
    NoActiveGame,
    NotYourTurn,
    InsufficientChips,
    InvalidBetAmount,
    PlayerFolded,
    PlayerAlreadyActed,
    BettingNotComplete,
    InvalidGameStage,
    PlayerNotAtTable,
    NotAdmin,
    CardsNotSubmitted,
    CardsAlreadySubmitted,
    CardsAlreadyDealt,
    InvalidCardCount,
    SeatTaken,
    PlayerAlreadySeated,
    CannotLeaveDuringGame,
    GameNotFinished,
    CannotCheck,
    RaiseTooSmall,
    WinnerNotDetermined,
    OffsetAlreadyApplied,
    OffsetNotApplied,
    InvalidSeatIndex,
    BlindsAlreadyPosted,
    InvalidBatchIndex,
    BatchOutOfOrder,
    PositionOffsetAlreadySet,
    PositionOffsetNotSet,
}

} // verus!
