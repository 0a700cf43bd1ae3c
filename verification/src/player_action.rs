use vstd::prelude::*;
use crate::error::PokerError;
use crate::state::player_seat::PlayerSeat;
use crate::state::poker_game::PokerGame;
use crate::state::{BetAction, GameStage};

verus! {

/// What the seat has to add to match the highest bet of the round.
pub open spec fn amount_to_call(game: PokerGame, seat: PlayerSeat) -> u64 {
    if game.current_bet > seat.current_bet {
        (game.current_bet - seat.current_bet) as u64
    } else {
        0
    }
}

/// The smallest raise that is accepted: the size of the last raise of the
/// round, or the highest bet where nobody has raised yet.
pub open spec fn min_raise(game: PokerGame) -> u64 {
    if game.last_raise_amount > 0 {
        game.last_raise_amount
    } else {
        game.current_bet
    }
}

/// Why the action is refused, or `None` where it is legal. The conditions
/// are tested in the order given here and the first that fails decides.
pub open spec fn refusal(game: PokerGame, seat: PlayerSeat, code: u8, raise_amount: u64) -> Option<
    PokerError,
> {
    let to_call = amount_to_call(game, seat);
    if BetAction::decode(code) is None {
        Some(PokerError::InvalidBetAmount)
    } else if seat.seat_index != game.action_on {
        Some(PokerError::NotYourTurn)
    } else if game.folded_mask@.contains(seat.seat_index as int) {
        Some(PokerError::PlayerFolded)
    } else if game.all_in_mask@.contains(seat.seat_index as int) {
        Some(PokerError::PlayerAlreadyActed)
    } else if !game.stage.is_betting() {
        Some(PokerError::InvalidGameStage)
    } else {
        match BetAction::decode(code)->0 {
            BetAction::Fold => None,
            BetAction::Check => if to_call != 0 {
                Some(PokerError::CannotCheck)
            } else {
                None
            },
            BetAction::Call => if to_call > seat.chips {
                Some(PokerError::InsufficientChips)
            } else {
                None
            },
            BetAction::Raise => if raise_amount < min_raise(game) {
                Some(PokerError::RaiseTooSmall)
            } else if to_call + raise_amount > seat.chips {
                Some(PokerError::InsufficientChips)
            } else {
                None
            },
            BetAction::AllIn => None,
        }
    }
}

/// The chips that a legal action moves from the seat's stack into the pot.
pub open spec fn chips_committed(
    game: PokerGame,
    seat: PlayerSeat,
    action: BetAction,
    raise_amount: u64,
) -> u64 {
    match action {
        BetAction::Fold => 0,
        BetAction::Check => 0,
        BetAction::Call => amount_to_call(game, seat),
        BetAction::Raise => (amount_to_call(game, seat) + raise_amount) as u64,
        BetAction::AllIn => seat.chips,
    }
}

/// The seat after a legal action: the chips have moved into its bet, it is
/// marked as having acted, and a fold or an all-in is recorded.
pub open spec fn seat_after(
    game: PokerGame,
    seat: PlayerSeat,
    action: BetAction,
    raise_amount: u64,
) -> PlayerSeat {
    let paid = seat.after_bet(chips_committed(game, seat, action, raise_amount));
    PlayerSeat {
        is_folded: seat.is_folded || action is Fold,
        is_all_in: seat.is_all_in || action is AllIn,
        has_acted: true,
        ..paid
    }
}

/// Whether a legal action raises the highest bet of the round: a raise
/// does, and an all-in that takes the seat's bet above it.
pub open spec fn raises_bet(
    game: PokerGame,
    seat: PlayerSeat,
    action: BetAction,
    raise_amount: u64,
) -> bool {
    action is Raise || (action is AllIn && seat_after(game, seat, action, raise_amount).current_bet
        > game.current_bet)
}

/// The hand after a legal action, before the turn passes on.
pub open spec fn game_after_bet(
    game: PokerGame,
    seat: PlayerSeat,
    action: BetAction,
    raise_amount: u64,
) -> PokerGame {
    let after = seat_after(game, seat, action, raise_amount);
    let paid = PokerGame {
        pot: (game.pot + chips_committed(game, seat, action, raise_amount)) as u64,
        ..game
    };
    if action is Fold {
        PokerGame {
            folded_mask: game.folded_mask.with(seat.seat_index as int),
            players_remaining: (game.players_remaining - 1) as u8,
            stage: if game.players_remaining == 2 {
                GameStage::Showdown
            } else {
                game.stage
            },
            ..paid
        }
    } else if raises_bet(game, seat, action, raise_amount) {
        PokerGame {
            all_in_mask: if action is AllIn {
                game.all_in_mask.with(seat.seat_index as int)
            } else {
                game.all_in_mask
            },
            current_bet: after.current_bet,
            last_raiser: seat.seat_index,
            last_raise_amount: if action is Raise {
                raise_amount
            } else {
                (after.current_bet - game.current_bet) as u64
            },
            players_acted: 0,
            ..paid
        }
    } else if action is AllIn {
        PokerGame { all_in_mask: game.all_in_mask.with(seat.seat_index as int), ..paid }
    } else {
        paid
    }
}

/// The hand after the turn has passed on: one more action counted, and the
/// action on the next seat to the left that can act (on the seat to the left
/// where no seat can).
pub open spec fn turn_passed(game: PokerGame) -> PokerGame {
    PokerGame {
        players_acted: (game.players_acted + 1) as u8,
        action_on: game.action_from(game.seat_left_of(game.action_on as int)) as u8,
        ..game
    }
}

/// The hand after a legal action.
pub open spec fn game_after(
    game: PokerGame,
    seat: PlayerSeat,
    action: BetAction,
    raise_amount: u64,
) -> PokerGame {
    turn_passed(game_after_bet(game, seat, action, raise_amount))
}

/// The amounts stay representable: where the action is legal, the pot can
/// take the chips that it moves, and the count of actions can grow by one
/// unless the action raises the bet and so starts the count anew.
pub open spec fn within_limits(game: PokerGame, seat: PlayerSeat, code: u8, raise_amount: u64) -> bool {
    refusal(game, seat, code, raise_amount) is None ==> {
        let action = BetAction::decode(code)->0;
        &&& game.pot + chips_committed(game, seat, action, raise_amount) <= u64::MAX
        &&& raises_bet(game, seat, action, raise_amount) || game.players_acted < u8::MAX
    }
}

/// Tells whether the action can be taken now, and which action it is.
pub fn check(game: &PokerGame, seat: &PlayerSeat, action: u8, raise_amount: u64) -> (r: Result<
    BetAction,
    PokerError,
>)
    ensures
        match refusal(*game, *seat, action, raise_amount) {
            Some(e) => r == Err::<BetAction, PokerError>(e),
            None => r == Ok::<BetAction, PokerError>(BetAction::decode(action)->0),
        },
{
    let act = match BetAction::from_code(action) {
        Some(a) => a,
        None => {
            return Err(PokerError::InvalidBetAmount);
        },
    };
    if seat.seat_index != game.action_on {
        return Err(PokerError::NotYourTurn);
    }
    if game.is_folded(seat.seat_index) {
        return Err(PokerError::PlayerFolded);
    }
    if game.is_all_in(seat.seat_index) {
        return Err(PokerError::PlayerAlreadyActed);
    }
    match game.stage {
        GameStage::Waiting | GameStage::Showdown | GameStage::Finished => {
            return Err(PokerError::InvalidGameStage);
        },
        _ => {},
    }
    let to_call: u64 = call_amount(game, seat);
    match act {
        BetAction::Fold => {},
        BetAction::Check => {
            if to_call != 0 {
                return Err(PokerError::CannotCheck);
            }
        },
        BetAction::Call => {
            if to_call > seat.chips {
                return Err(PokerError::InsufficientChips);
            }
        },
        BetAction::Raise => {
            let least: u64 = if game.last_raise_amount > 0 {
                game.last_raise_amount
            } else {
                game.current_bet
            };
            if raise_amount < least {
                return Err(PokerError::RaiseTooSmall);
            }
            if to_call > seat.chips || raise_amount > seat.chips - to_call {
                return Err(PokerError::InsufficientChips);
            }
        },
        BetAction::AllIn => {},
    }
    Ok(act)
}

/// What the seat has to add to match the highest bet of the round.
pub fn call_amount(game: &PokerGame, seat: &PlayerSeat) -> (to_call: u64)
    ensures
        to_call == amount_to_call(*game, *seat),
{
    if game.current_bet > seat.current_bet {
        game.current_bet - seat.current_bet
    } else {
        0
    }
}

/// Tests that the amounts stay representable.
pub fn limits_hold(game: &PokerGame, seat: &PlayerSeat, action: u8, raise_amount: u64) -> (r: bool)
    requires
        seat.wf(),
    ensures
        r == within_limits(*game, *seat, action, raise_amount),
{
    let act = match check(game, seat, action, raise_amount) {
        Ok(a) => a,
        Err(_) => {
            return true;
        },
    };
    let to_call: u64 = call_amount(game, seat);
    match act {
        BetAction::Fold => game.players_acted < u8::MAX,
        BetAction::Check => game.players_acted < u8::MAX,
        BetAction::Call => to_call <= u64::MAX - game.pot && game.players_acted < u8::MAX,
        BetAction::Raise => to_call + raise_amount <= u64::MAX - game.pot,
        BetAction::AllIn => seat.chips <= u64::MAX - game.pot && (seat.current_bet + seat.chips
            > game.current_bet || game.players_acted < u8::MAX),
    }
}

/// Takes the action with wire code `action` for the seat whose turn it is.
///
/// The action is refused, and nothing changes, unless it is the seat's
/// turn, the seat has neither folded nor gone all-in, the hand is in a
/// betting stage, and the action is legal: a check needs nothing to call, a
/// call and a raise need the chips, a raise needs the minimum size. A legal
/// action moves the chips, records a fold, a raise or an all-in, counts the
/// action and passes the turn to the next seat that can act. A fold that
/// leaves one player forces the showdown.
pub fn handler(game: &mut PokerGame, player_seat: &mut PlayerSeat, action: u8, raise_amount: u64) -> (r:
    Result<(), PokerError>)
    requires
        old(game).wf(),
        old(player_seat).wf(),
        within_limits(*old(game), *old(player_seat), action, raise_amount),
    ensures
        match refusal(*old(game), *old(player_seat), action, raise_amount) {
            Some(e) => r == Err::<(), PokerError>(e) && *final(game) == *old(game) && *final(player_seat) == *old(player_seat),
            None => r is Ok && *final(player_seat) == seat_after(
                *old(game),
                *old(player_seat),
                BetAction::decode(action)->0,
                raise_amount,
            ) && *final(game) == game_after(
                *old(game),
                *old(player_seat),
                BetAction::decode(action)->0,
                raise_amount,
            ),
        },
        final(game).wf(),
        final(player_seat).wf(),
        final(game).pot - old(game).pot == final(player_seat).total_bet - old(player_seat).total_bet,
        final(game).pot - old(game).pot == old(player_seat).chips - final(player_seat).chips,
        final(game).pot - old(game).pot == final(player_seat).current_bet - old(player_seat).current_bet,
        final(player_seat).stake() == old(player_seat).stake(),
        final(game).stage.rank() >= old(game).stage.rank(),
{
    let act = match check(game, player_seat, action, raise_amount) {
        Ok(a) => a,
        Err(e) => {
            return Err(e);
        },
    };
    let seat_index: u8 = player_seat.seat_index;
    let to_call: u64 = call_amount(game, player_seat);
    match act {
        BetAction::Fold => {
            proof {
                lemma_fold_keeps_count(*game, seat_index as int);
            }
            player_seat.is_folded = true;
            game.folded_mask.insert(seat_index);
            game.players_remaining = game.players_remaining - 1;
            if game.players_remaining == 1 {
                game.stage = GameStage::Showdown;
            }
        },
        BetAction::Check => {},
        BetAction::Call => {
            player_seat.place_bet(to_call);
            game.pot = game.pot + to_call;
        },
        BetAction::Raise => {
            let total: u64 = to_call + raise_amount;
            player_seat.place_bet(total);
            game.pot = game.pot + total;
            game.current_bet = player_seat.current_bet;
            game.last_raiser = seat_index;
            game.last_raise_amount = raise_amount;
            game.players_acted = 0;
        },
        BetAction::AllIn => {
            let stack: u64 = player_seat.chips;
            player_seat.place_bet(stack);
            player_seat.is_all_in = true;
            game.all_in_mask.insert(seat_index);
            game.pot = game.pot + stack;
            if player_seat.current_bet > game.current_bet {
                let raised_by: u64 = player_seat.current_bet - game.current_bet;
                game.current_bet = player_seat.current_bet;
                game.last_raiser = seat_index;
                game.last_raise_amount = raised_by;
                game.players_acted = 0;
            }
        },
    }
    player_seat.has_acted = true;
    game.players_acted = game.players_acted + 1;
    advance_action(game);
    Ok(())
}

/// Passes the turn to the next seat to the left that can act, looking at
/// each seat at most once; where no seat can act the turn goes to the seat
/// to the left.
fn advance_action(game: &mut PokerGame)
    requires
        0 < old(game).player_count <= 16,
        old(game).action_on < old(game).player_count,
    ensures
        *final(game) == (PokerGame {
            action_on: old(game).action_from(old(game).seat_left_of(old(game).action_on as int)) as u8,
            ..*old(game)
        }),
        final(game).action_on < old(game).player_count,
{
    let start: u8 = (game.action_on + 1) % game.player_count;
    game.action_on = game.action_seat(start);
}

/// A seat of the hand that has not folded can fold: a player remains to be
/// counted down, and the count of those who remain stays in step with the
/// set of those who folded.
pub proof fn lemma_fold_keeps_count(game: PokerGame, seat: int)
    requires
        game.wf(),
        0 <= seat < game.player_count,
        !game.folded_mask@.contains(seat),
    ensures
        game.players_remaining >= 1,
        game.folded_mask.with(seat)@ == game.folded_mask@.insert(seat),
        game.folded_mask.with(seat)@.len() == game.folded_mask@.len() + 1,
        game.folded_mask.with(seat).within(game.player_count as int),
{
    let n = game.player_count as int;
    game.folded_mask.lemma_with(seat);
    game.folded_mask.lemma_finite();
    let grown = game.folded_mask@.insert(seat);
    vstd::set_lib::lemma_int_range(0, n);
    assert(grown.subset_of(vstd::set_lib::set_int_range(0, n)));
    vstd::set_lib::lemma_len_subset(grown, vstd::set_lib::set_int_range(0, n));
}

} // verus!
