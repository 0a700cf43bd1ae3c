use vstd::prelude::*;
use crate::error::PokerError;
use crate::state::poker_game::PokerGame;
use crate::state::GameStage;

verus! {

/// The position offset that a beacon value gives: its lowest byte, reduced
/// modulo ten to the ten hole-card slots. The result lies in `0..10`.
pub open spec fn offset_from_beacon(beacon: u64) -> u8 {
    ((beacon % 256) % 10) as u8
}

/// Why the position offset cannot be drawn, or `None` where it can. The
/// conditions are tested in the order given here.
pub open spec fn refusal(game: PokerGame) -> Option<PokerError> {
    if !game.cards_submitted {
        Some(PokerError::CardsNotSubmitted)
    } else if !game.offset_applied {
        Some(PokerError::OffsetNotApplied)
    } else if game.position_offset is Some {
        Some(PokerError::PositionOffsetAlreadySet)
    } else if !(game.stage is Waiting) {
        Some(PokerError::InvalidGameStage)
    } else {
        None
    }
}

/// Fixes the rotation of the hole cards from a beacon value that nobody
/// knew when the cards were committed.
///
/// Refused, and nothing changes, unless every card has been committed and
/// blinded, no offset has been drawn for this hand, and the hand is
/// `Waiting`. Otherwise the position offset is set from the beacon and
/// nothing else changes.
pub fn handler(game: &mut PokerGame, beacon: u64) -> (r: Result<(), PokerError>)
    requires
        old(game).wf(),
    ensures
        match refusal(*old(game)) {
            Some(e) => r == Err::<(), PokerError>(e) && *final(game) == *old(game),
            None => r is Ok && *final(game) == (PokerGame {
                position_offset: Some(offset_from_beacon(beacon)),
                ..*old(game)
            }),
        },
        0 <= offset_from_beacon(beacon) <= 9,
        final(game).wf(),
        final(game).stage == old(game).stage,
        final(game).pot == old(game).pot,
{
    if !game.cards_submitted {
        return Err(PokerError::CardsNotSubmitted);
    }
    if !game.offset_applied {
        return Err(PokerError::OffsetNotApplied);
    }
    if game.position_offset.is_some() {
        return Err(PokerError::PositionOffsetAlreadySet);
    }
    match game.stage {
        GameStage::Waiting => {},
        _ => {
            return Err(PokerError::InvalidGameStage);
        },
    }
    let low_byte: u8 = (beacon % 256) as u8;
    game.position_offset = Some(low_byte % 10);
    Ok(())
}

} // verus!
