use vstd::prelude::*;
use crate::error::PokerError;
use crate::slot_set::SlotSet;
use crate::state::poker_game::PokerGame;
use crate::state::poker_table::{PokerTable, MIN_PLAYERS};
use crate::state::{GameStage, Handle};

verus! {

/// Why a hand cannot be started at the table, or `None` where it can. The
/// conditions are tested in the order given here.
pub open spec fn refusal(table: PokerTable) -> Option<PokerError> {
    if table.current_game is Some {
        Some(PokerError::GameInProgress)
    } else if table.player_count < MIN_PLAYERS {
        Some(PokerError::NotEnoughPlayers)
    } else {
        None
    }
}

/// Whether `game` is a hand that has just been started for `player_count`
/// players: waiting for its cards, with an empty pot, nobody folded or
/// all-in, the dealer in seat 0, and no step of the dealing protocol taken.
pub open spec fn is_fresh(game: PokerGame, game_id: u64, player_count: u8) -> bool {
    &&& game.game_id == game_id
    &&& game.stage is Waiting
    &&& game.pot == 0
    &&& game.current_bet == 0
    &&& game.dealer_position == 0
    &&& game.action_on == 0
    &&& game.players_remaining == player_count
    &&& game.players_acted == 0
    &&& game.player_count == player_count
    &&& game.folded_mask.bits == 0
    &&& game.all_in_mask.bits == 0
    &&& game.blinds_posted.bits == 0
    &&& game.last_raiser == 0
    &&& game.last_raise_amount == 0
    &&& forall|i: int| 0 <= i < 15 ==> game.card_pool[i] == Handle(0)
    &&& game.encrypted_offset == Handle(0)
    &&& game.offset_batch == 0
    &&& game.cards_offset_mask.bits == 0
    &&& game.submitted_batches.bits == 0
    &&& game.position_offset is None
    &&& !game.cards_submitted
    &&& !game.offset_applied
    &&& game.cards_dealt_count == 0
    &&& game.community_revealed.bits == 0
    &&& game.winner_seat is None
}

/// Starts a new hand at the table for the players seated there.
///
/// Refused, and the table unchanged, with `GameInProgress` while the table
/// has a hand, and with `NotEnoughPlayers` below the minimum. Otherwise
/// returns the fresh hand and records it at the table.
pub fn handler(table: &mut PokerTable, game_id: u64) -> (r: Result<PokerGame, PokerError>)
    requires
        old(table).wf(),
    ensures
        match refusal(*old(table)) {
            Some(e) => r == Err::<PokerGame, PokerError>(e) && *final(table) == *old(table),
            None => r matches Ok(game) && is_fresh(game, game_id, old(table).player_count)
                && game.wf() && *final(table) == (PokerTable {
                current_game: Some(game_id),
                ..*old(table)
            }),
        },
        final(table).wf(),
{
    if table.current_game.is_some() {
        return Err(PokerError::GameInProgress);
    }
    if table.player_count < MIN_PLAYERS {
        return Err(PokerError::NotEnoughPlayers);
    }
    let game = PokerGame {
        game_id,
        stage: GameStage::Waiting,
        pot: 0,
        current_bet: 0,
        dealer_position: 0,
        action_on: 0,
        players_remaining: table.player_count,
        players_acted: 0,
        player_count: table.player_count,
        folded_mask: SlotSet::empty(),
        all_in_mask: SlotSet::empty(),
        blinds_posted: SlotSet::empty(),
        last_raiser: 0,
        last_raise_amount: 0,
        card_pool: [Handle(0);15],
        encrypted_offset: Handle(0),
        offset_batch: 0,
        cards_offset_mask: SlotSet::empty(),
        submitted_batches: SlotSet::empty(),
        position_offset: None,
        cards_submitted: false,
        offset_applied: false,
        cards_dealt_count: 0,
        community_revealed: SlotSet::empty(),
        winner_seat: None,
    };
    table.current_game = Some(game_id);
    proof {
        assert(!game.submitted_batches@.contains(0));
        assert(game.folded_mask@.len() == 0);
    }
    Ok(game)
}

} // verus!
