use vstd::prelude::*;
use crate::error::PokerError;
use crate::state::poker_table::PokerTable;

verus! {

/// Why a player cannot take a seat with a stack of `buy_in`, or `None`
/// where the seat is granted. The conditions are tested in the order given
/// here.
pub open spec fn refusal(table: PokerTable, buy_in: u64) -> Option<PokerError> {
    if !table.accepts_buy_in(buy_in) {
        Some(PokerError::InvalidBuyIn)
    } else if table.player_count >= table.max_players {
        Some(PokerError::TableFull)
    } else if table.current_game is Some {
        Some(PokerError::GameInProgress)
    } else {
        None
    }
}

/// Seats one more player at the table.
///
/// Refused, and the table unchanged, where the stack is outside the table's
/// limits, the table is full, or a hand is in progress. Otherwise the table
/// counts one more player.
pub fn handler(table: &mut PokerTable, buy_in: u64) -> (r: Result<(), PokerError>)
    requires
        old(table).wf(),
    ensures
        match refusal(*old(table), buy_in) {
            Some(e) => r == Err::<(), PokerError>(e) && *final(table) == *old(table),
            None => r is Ok && *final(table) == (PokerTable {
                player_count: (old(table).player_count + 1) as u8,
                ..*old(table)
            }),
        },
        final(table).wf(),
{
    if buy_in < table.buy_in_min || buy_in > table.buy_in_max {
        return Err(PokerError::InvalidBuyIn);
    }
    if table.player_count >= table.max_players {
        return Err(PokerError::TableFull);
    }
    if table.current_game.is_some() {
        return Err(PokerError::GameInProgress);
    }
    table.player_count = table.player_count + 1;
    Ok(())
}

} // verus!
