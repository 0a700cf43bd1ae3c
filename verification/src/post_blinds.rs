use vstd::prelude::*;
use crate::error::PokerError;
use crate::state::player_seat::PlayerSeat;
use crate::state::poker_game::PokerGame;
use crate::state::poker_table::PokerTable;
use crate::state::GameStage;

verus! {

/// The seat that posts the small blind: the first to the left of the dealer.
pub open spec fn small_blind_seat_of(game: PokerGame) -> int {
    (game.dealer_position + 1) % (game.player_count as int)
}

/// The seat that posts the big blind: the second to the left of the dealer.
pub open spec fn big_blind_seat_of(game: PokerGame) -> int {
    (game.dealer_position + 2) % (game.player_count as int)
}

/// The big blind of a table: twice its small blind.
pub open spec fn big_blind_of(table: PokerTable) -> u64 {
    (2 * table.small_blind) as u64
}

/// Why the blinds are refused, or `None` where they can be posted. The
/// conditions are tested in the order given here.
pub open spec fn refusal(game: PokerGame, sb_seat: PlayerSeat, bb_seat: PlayerSeat) -> Option<
    PokerError,
> {
    if sb_seat.seat_index != small_blind_seat_of(game) {
        Some(PokerError::InvalidSeatIndex)
    } else if bb_seat.seat_index != big_blind_seat_of(game) {
        Some(PokerError::InvalidSeatIndex)
    } else if !(game.stage is PreFlop) {
        Some(PokerError::InvalidGameStage)
    } else if !(game.blinds_posted@ =~= Set::<int>::empty()) {
        Some(PokerError::BlindsAlreadyPosted)
    } else {
        None
    }
}

/// A seat after it has posted a blind of `required`: the blind, or its
/// whole stack where that is less, has moved into its bet, and it has yet
/// to act in the round.
pub open spec fn seat_after_blind(seat: PlayerSeat, required: u64) -> PlayerSeat {
    PlayerSeat { has_acted: false, ..seat.after_bet(seat.blind_amount(required)) }
}

/// The hand after both blinds have been posted.
pub open spec fn game_after(
    game: PokerGame,
    table: PokerTable,
    sb_seat: PlayerSeat,
    bb_seat: PlayerSeat,
) -> PokerGame {
    let sb_amount = sb_seat.blind_amount(table.small_blind);
    let bb_amount = bb_seat.blind_amount(big_blind_of(table));
    PokerGame {
        pot: (game.pot + sb_amount + bb_amount) as u64,
        blinds_posted: game.blinds_posted.with(sb_seat.seat_index as int).with(
            bb_seat.seat_index as int,
        ),
        current_bet: bb_amount,
        last_raise_amount: bb_amount,
        last_raiser: bb_seat.seat_index,
        action_on: game.action_from(game.seat_left_of(bb_seat.seat_index as int)) as u8,
        players_acted: 0,
        ..game
    }
}

/// The pot can take what the two seats post, where they do post.
pub open spec fn within_limits(
    table: PokerTable,
    game: PokerGame,
    sb_seat: PlayerSeat,
    bb_seat: PlayerSeat,
) -> bool {
    refusal(game, sb_seat, bb_seat) is None ==> game.pot + sb_seat.blind_amount(table.small_blind)
        + bb_seat.blind_amount(big_blind_of(table)) <= u64::MAX
}

/// Tells whether the two seats can post the blinds now.
pub fn check(game: &PokerGame, sb_seat: &PlayerSeat, bb_seat: &PlayerSeat) -> (r: Result<
    (),
    PokerError,
>)
    requires
        game.wf(),
    ensures
        match refusal(*game, *sb_seat, *bb_seat) {
            Some(e) => r == Err::<(), PokerError>(e),
            None => r is Ok,
        },
{
    let sb_position: u8 = (game.dealer_position + 1) % game.player_count;
    let bb_position: u8 = (game.dealer_position + 2) % game.player_count;
    if sb_seat.seat_index != sb_position {
        return Err(PokerError::InvalidSeatIndex);
    }
    if bb_seat.seat_index != bb_position {
        return Err(PokerError::InvalidSeatIndex);
    }
    match game.stage {
        GameStage::PreFlop => {},
        _ => {
            return Err(PokerError::InvalidGameStage);
        },
    }
    if !game.blinds_posted.is_empty() {
        return Err(PokerError::BlindsAlreadyPosted);
    }
    Ok(())
}

/// Tests that the pot can take what the two seats post.
pub fn limits_hold(table: &PokerTable, game: &PokerGame, sb_seat: &PlayerSeat, bb_seat: &PlayerSeat) -> (r:
    bool)
    requires
        table.wf(),
        game.wf(),
    ensures
        r == within_limits(*table, *game, *sb_seat, *bb_seat),
{
    if check(game, sb_seat, bb_seat).is_err() {
        return true;
    }
    let small: u64 = table.small_blind;
    let big: u64 = small * 2;
    let sb_amount: u64 = if small <= sb_seat.chips {
        small
    } else {
        sb_seat.chips
    };
    let bb_amount: u64 = if big <= bb_seat.chips {
        big
    } else {
        bb_seat.chips
    };
    sb_amount <= u64::MAX - game.pot && bb_amount <= u64::MAX - game.pot - sb_amount
}

/// Posts the small and the big blind at the start of the pre-flop round.
///
/// Refused, and nothing changes, unless the two seats are the first and the
/// second to the left of the dealer, the hand is in `PreFlop`, and no blind
/// has been posted in this hand. The small blind is the table's, the big
/// blind twice as much; a seat with a shorter stack posts its whole stack.
/// Both amounts go to the pot, the big blind posted becomes the bet to
/// match and the raise to beat, and the action goes to the first seat left
/// of the big blind that can act. Both posters have yet to act.
pub fn handler(
    table: &PokerTable,
    game: &mut PokerGame,
    small_blind_seat: &mut PlayerSeat,
    big_blind_seat: &mut PlayerSeat,
) -> (r: Result<(), PokerError>)
    requires
        table.wf(),
        old(game).wf(),
        old(small_blind_seat).wf(),
        old(big_blind_seat).wf(),
        within_limits(*table, *old(game), *old(small_blind_seat), *old(big_blind_seat)),
    ensures
        match refusal(*old(game), *old(small_blind_seat), *old(big_blind_seat)) {
            Some(e) => r == Err::<(), PokerError>(e) && *final(game) == *old(game) && *final(small_blind_seat) == *old(small_blind_seat) && *final(big_blind_seat) == *old(big_blind_seat),
            None => r is Ok && *final(small_blind_seat) == seat_after_blind(
                *old(small_blind_seat),
                table.small_blind,
            ) && *final(big_blind_seat) == seat_after_blind(
                *old(big_blind_seat),
                big_blind_of(*table),
            ) && *final(game) == game_after(
                *old(game),
                *table,
                *old(small_blind_seat),
                *old(big_blind_seat),
            ),
        },
        final(game).wf(),
        final(small_blind_seat).wf(),
        final(big_blind_seat).wf(),
        final(game).pot - old(game).pot == (final(small_blind_seat).total_bet - old(small_blind_seat).total_bet) + (final(big_blind_seat).total_bet - old(big_blind_seat).total_bet),
        final(game).stage == old(game).stage,
{
    match check(game, small_blind_seat, big_blind_seat) {
        Err(e) => {
            return Err(e);
        },
        Ok(_) => {},
    }
    let small_blind: u64 = table.small_blind;
    let big_blind: u64 = small_blind * 2;

    let sb_amount: u64 = small_blind_seat.post_blind(small_blind);
    game.pot = game.pot + sb_amount;
    game.blinds_posted.insert(small_blind_seat.seat_index);

    let bb_amount: u64 = big_blind_seat.post_blind(big_blind);
    game.pot = game.pot + bb_amount;
    game.blinds_posted.insert(big_blind_seat.seat_index);

    game.current_bet = bb_amount;
    game.last_raise_amount = bb_amount;
    game.last_raiser = big_blind_seat.seat_index;

    let first: u8 = (big_blind_seat.seat_index + 1) % game.player_count;
    game.action_on = game.action_seat(first);

    small_blind_seat.has_acted = false;
    big_blind_seat.has_acted = false;
    game.players_acted = 0;
    Ok(())
}

} // verus!
