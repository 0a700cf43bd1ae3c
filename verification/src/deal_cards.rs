use vstd::prelude::*;
use crate::error::PokerError;
use crate::state::player_seat::PlayerSeat;
use crate::state::poker_game::{PokerGame, HOLE_SLOTS};
use crate::state::poker_table::PokerTable;
use crate::state::{GameStage, Handle};

verus! {

/// The pool slot of hole card `j` (0 or 1) of seat `seat` under a position
/// offset: the seat's own slot `2 * seat + j`, rotated by the offset round
/// the ten hole-card slots.
pub open spec fn hole_slot(seat: int, j: int, position_offset: int) -> int {
    (2 * seat + j + position_offset) % 10
}

/// Why the seat cannot be dealt, or `None` where it can. The conditions are
/// tested in the order given here.
pub open spec fn refusal(table: PokerTable, game: PokerGame, seat_index: u8, buy_in: u64) -> Option<
    PokerError,
> {
    if !game.cards_submitted {
        Some(PokerError::CardsNotSubmitted)
    } else if !game.offset_applied {
        Some(PokerError::OffsetNotApplied)
    } else if game.position_offset is None {
        Some(PokerError::PositionOffsetNotSet)
    } else if !(game.stage is Waiting) {
        Some(PokerError::InvalidGameStage)
    } else if seat_index >= game.player_count {
        Some(PokerError::PlayerNotAtTable)
    } else if !table.accepts_buy_in(buy_in) {
        Some(PokerError::InvalidBuyIn)
    } else if game.cards_dealt_count >= game.player_count {
        Some(PokerError::CardsAlreadyDealt)
    } else {
        None
    }
}

/// The seat that the deal creates: the stack is the buy-in and the hole
/// cards are the two handles at the seat's rotated pool slots.
pub open spec fn seat_dealt(game: PokerGame, seat_index: u8, buy_in: u64) -> PlayerSeat {
    PlayerSeat::dealt(
        seat_index,
        buy_in,
        game.card_pool[hole_slot(seat_index as int, 0, game.position_offset->0 as int)],
        game.card_pool[hole_slot(seat_index as int, 1, game.position_offset->0 as int)],
    )
}

/// The hand after one more seat has been dealt: the pre-flop round begins
/// once every seat has its cards.
pub open spec fn game_after(game: PokerGame) -> PokerGame {
    PokerGame {
        cards_dealt_count: (game.cards_dealt_count + 1) as u8,
        stage: if game.cards_dealt_count + 1 == game.player_count {
            GameStage::PreFlop
        } else {
            game.stage
        },
        ..game
    }
}

/// The two pool slots that hold the hole cards of `seat_index` under
/// `position_offset`.
pub fn hole_card_slots(seat_index: u8, position_offset: u8) -> (slots: (u8, u8))
    ensures
        slots.0 == hole_slot(seat_index as int, 0, position_offset as int),
        slots.1 == hole_slot(seat_index as int, 1, position_offset as int),
        slots.0 < HOLE_SLOTS,
        slots.1 < HOLE_SLOTS,
{
    let base: u16 = 2 * (seat_index as u16) + (position_offset as u16);
    let first: u16 = base % 10;
    let second: u16 = (base + 1) % 10;
    (first as u8, second as u8)
}

/// The handles that the player of a newly dealt seat has to be granted
/// access to: the seat's two hole cards, and nothing else.
pub fn decrypt_grants(seat: &PlayerSeat) -> (grants: [Handle; 2])
    ensures
        grants[0] == seat.hole_card_1,
        grants[1] == seat.hole_card_2,
{
    [seat.hole_card_1, seat.hole_card_2]
}

/// Deals a seat its two hole cards from the blinded, rotated pool.
///
/// Refused, and nothing changes, unless every card has been committed and
/// blinded, the position offset has been drawn, the hand is `Waiting`, the
/// seat is one of the hand's, the buy-in is within the table's limits and
/// not every seat has been dealt yet. Otherwise returns the new seat, whose
/// two hole cards are the ones to grant the player access to (see
/// `decrypt_grants`), and counts the deal; the deal of the last seat starts
/// the pre-flop round.
pub fn handler(table: &PokerTable, game: &mut PokerGame, seat_index: u8, buy_in: u64) -> (r: Result<
    PlayerSeat,
    PokerError,
>)
    requires
        old(game).wf(),
    ensures
        match refusal(*table, *old(game), seat_index, buy_in) {
            Some(e) => r == Err::<PlayerSeat, PokerError>(e) && *final(game) == *old(game),
            None => r == Ok::<PlayerSeat, PokerError>(seat_dealt(*old(game), seat_index, buy_in))
                && *final(game) == game_after(*old(game)),
        },
        r is Ok ==> old(game).cards_submitted && old(game).offset_applied && old(game).position_offset is Some
            && old(game).cards_offset_mask.covers(15),
        r matches Ok(seat) ==> seat.wf() && seat.total_bet == 0,
        final(game).wf(),
        final(game).pot == old(game).pot,
        final(game).stage.rank() >= old(game).stage.rank(),
{
    if !game.cards_submitted {
        return Err(PokerError::CardsNotSubmitted);
    }
    if !game.offset_applied {
        return Err(PokerError::OffsetNotApplied);
    }
    let position_offset: u8 = match game.position_offset {
        Some(offset) => offset,
        None => {
            return Err(PokerError::PositionOffsetNotSet);
        },
    };
    match game.stage {
        GameStage::Waiting => {},
        _ => {
            return Err(PokerError::InvalidGameStage);
        },
    }
    if seat_index >= game.player_count {
        return Err(PokerError::PlayerNotAtTable);
    }
    if buy_in < table.buy_in_min || buy_in > table.buy_in_max {
        return Err(PokerError::InvalidBuyIn);
    }
    if game.cards_dealt_count >= game.player_count {
        return Err(PokerError::CardsAlreadyDealt);
    }
    let slots = hole_card_slots(seat_index, position_offset);
    let card_1 = game.card_pool[slots.0 as usize];
    let card_2 = game.card_pool[slots.1 as usize];
    let seat = PlayerSeat::new(seat_index, buy_in, card_1, card_2);
    game.cards_dealt_count = game.cards_dealt_count + 1;
    if game.cards_dealt_count == game.player_count {
        game.stage = GameStage::PreFlop;
    }
    Ok(seat)
}

} // verus!
