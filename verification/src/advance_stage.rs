use vstd::prelude::*;
use crate::error::PokerError;
use crate::slot_set::SlotSet;
use crate::state::player_seat::PlayerSeat;
use crate::state::poker_game::PokerGame;
use crate::state::GameStage;

verus! {

/// The community cards, by their number, that become visible when `stage`
/// is entered: the first three on the flop, the fourth on the turn, the
/// fifth on the river.
pub open spec fn newly_revealed(stage: GameStage) -> Set<int> {
    match stage {
        GameStage::Flop => Set::new(|i: int| 0 <= i < 3),
        GameStage::Turn => Set::new(|i: int| i == 3),
        GameStage::River => Set::new(|i: int| i == 4),
        _ => Set::<int>::empty(),
    }
}

/// The visible community cards once `stage` has been entered.
pub open spec fn revealed_on_entry(revealed: SlotSet, stage: GameStage) -> SlotSet {
    match stage {
        GameStage::Flop => revealed.with(0).with(1).with(2),
        GameStage::Turn => revealed.with(3),
        GameStage::River => revealed.with(4),
        _ => revealed,
    }
}

/// Entering a stage adds exactly the cards that the stage reveals.
pub proof fn lemma_revealed_on_entry(revealed: SlotSet, stage: GameStage)
    ensures
        revealed_on_entry(revealed, stage)@ == revealed@.union(newly_revealed(stage)),
{
    revealed.lemma_with(0);
    revealed.with(0).lemma_with(1);
    revealed.with(0).with(1).lemma_with(2);
    revealed.lemma_with(3);
    revealed.lemma_with(4);
    assert(revealed_on_entry(revealed, stage)@ =~= revealed@.union(newly_revealed(stage)));
}

/// Whether the stage can be advanced at all: not before the deal is
/// complete and not after the hand is over.
pub open spec fn can_advance(game: PokerGame) -> bool {
    !(game.stage is Waiting) && !(game.stage is Finished)
}

/// Whether advancing short-circuits to the showdown: one player remains.
pub open spec fn single_survivor(game: PokerGame) -> bool {
    game.players_remaining == 1
}

/// Whether the seat with index `seat` is among the first `upto` of `seats`.
pub open spec fn handed_in_before(seats: Seq<PlayerSeat>, upto: int, seat: int) -> bool {
    exists|k: int| 0 <= k < upto && k < seats.len() && (#[trigger] seats[k]).seat_index == seat
}

/// Whether the seat with index `seat` is among `seats`.
pub open spec fn handed_in(seats: Seq<PlayerSeat>, seat: int) -> bool {
    handed_in_before(seats, seats.len() as int, seat)
}

/// Whether every seat of the hand that has not folded is among `seats`.
pub open spec fn all_remaining_handed_in(game: PokerGame, seats: Seq<PlayerSeat>) -> bool {
    forall|i: int|
        0 <= i < game.player_count && !game.folded_mask@.contains(i) ==> #[trigger] handed_in(
            seats,
            i,
        )
}

/// Why the stage cannot be advanced, or `None` where it can. The hand must
/// be past `Waiting` and not `Finished`; and unless one player remains,
/// every seat still in the hand must be handed in for its new round.
pub open spec fn refusal(game: PokerGame, seats: Seq<PlayerSeat>) -> Option<PokerError> {
    if !can_advance(game) {
        Some(PokerError::InvalidGameStage)
    } else if !single_survivor(game) && !all_remaining_handed_in(game, seats) {
        Some(PokerError::InvalidSeatIndex)
    } else {
        None
    }
}

/// The hand after the stage has been advanced.
pub open spec fn game_after(game: PokerGame) -> PokerGame {
    if single_survivor(game) {
        PokerGame { stage: GameStage::Showdown, ..game }
    } else {
        let next = game.stage.successor()->0;
        PokerGame {
            stage: next,
            community_revealed: revealed_on_entry(game.community_revealed, next),
            current_bet: 0,
            players_acted: 0,
            last_raiser: 0,
            last_raise_amount: 0,
            action_on: game.action_from(game.seat_left_of(game.dealer_position as int)) as u8,
            ..game
        }
    }
}

/// The seats after the stage has been advanced: as they were where one
/// player remains, and each ready for a new betting round otherwise.
pub open spec fn seats_after(game: PokerGame, seats: Seq<PlayerSeat>) -> Seq<PlayerSeat> {
    if single_survivor(game) {
        seats
    } else {
        seats.map_values(|s: PlayerSeat| s.round_reset())
    }
}

/// Moves the hand to its next stage once a betting round is over.
///
/// Refused with `InvalidGameStage` while the hand is `Waiting` or when it
/// is `Finished`. Where one player remains the hand goes straight to the
/// showdown and no seat is touched. Otherwise the seats handed in must
/// include every seat that has not folded, or the call is refused with
/// `InvalidSeatIndex`; then every seat handed in starts a new round with
/// nothing bet and not yet acted, the stage moves one step, the community
/// cards of the new stage become visible, the round's counters are
/// cleared, and the action goes to the first seat left of the dealer that
/// can act. A refused call changes nothing.
pub fn handler(game: &mut PokerGame, seats: &mut Vec<PlayerSeat>) -> (r: Result<(), PokerError>)
    requires
        old(game).wf(),
    ensures
        match refusal(*old(game), old(seats)@) {
            Some(e) => r == Err::<(), PokerError>(e) && *final(game) == *old(game) && final(seats)@
                == old(seats)@,
            None => r is Ok && *final(game) == game_after(*old(game)) && final(seats)@
                == seats_after(*old(game), old(seats)@),
        },
        !can_advance(*old(game)) <==> r == Err::<(), PokerError>(PokerError::InvalidGameStage),
        final(game).wf(),
        final(game).pot == old(game).pot,
        final(game).stage.rank() >= old(game).stage.rank(),
        final(seats)@.len() == old(seats)@.len(),
        forall|i: int|
            0 <= i < old(seats)@.len() ==> (#[trigger] final(seats)@[i]).total_bet == old(seats)@[i].total_bet
                && final(seats)@[i].chips == old(seats)@[i].chips,
        forall|i: int|
            0 <= i < old(seats)@.len() && old(seats)@[i].wf() ==> (#[trigger] final(seats)@[i]).wf(),
{
    match game.stage {
        GameStage::Waiting => {
            return Err(PokerError::InvalidGameStage);
        },
        _ => {},
    }
    let next = match game.stage.next() {
        Some(stage) => stage,
        None => {
            return Err(PokerError::InvalidGameStage);
        },
    };
    if game.players_remaining == 1 {
        game.stage = GameStage::Showdown;
        return Ok(());
    }
    if !remaining_handed_in(game, seats) {
        return Err(PokerError::InvalidSeatIndex);
    }
    reset_seats(seats);
    proof {
        lemma_revealed_on_entry(game.community_revealed, next);
    }
    match next {
        GameStage::Flop => {
            game.community_revealed.insert(0);
            game.community_revealed.insert(1);
            game.community_revealed.insert(2);
        },
        GameStage::Turn => {
            game.community_revealed.insert(3);
        },
        GameStage::River => {
            game.community_revealed.insert(4);
        },
        _ => {},
    }
    game.current_bet = 0;
    game.players_acted = 0;
    game.last_raiser = 0;
    game.last_raise_amount = 0;
    let first: u8 = (game.dealer_position + 1) % game.player_count;
    game.action_on = game.action_seat(first);
    game.stage = next;
    Ok(())
}

/// Tells whether every seat of the hand that has not folded is among
/// `seats`.
pub fn remaining_handed_in(game: &PokerGame, seats: &Vec<PlayerSeat>) -> (r: bool)
    requires
        game.player_count <= 16,
    ensures
        r == all_remaining_handed_in(*game, seats@),
{
    let mut present = SlotSet::empty();
    let mut k: usize = 0;
    while k < seats.len()
        invariant
            k <= seats.len(),
            forall|i: int|
                present@.contains(i) <==> 0 <= i < 16 && handed_in_before(seats@, k as int, i),
        decreases seats.len() - k,
    {
        let index: u8 = seats[k].seat_index;
        let ghost before = present;
        if index < 16 {
            present.insert(index);
        }
        proof {
            assert forall|i: int|
                present@.contains(i) <==> 0 <= i < 16 && handed_in_before(
                    seats@,
                    k + 1,
                    i,
                ) by {
                if handed_in_before(seats@, k + 1, i) {
                    let w = choose|w: int|
                        0 <= w < k + 1 && w < seats@.len() && (#[trigger] seats@[w]).seat_index
                            == i;
                    if w < k {
                        assert(handed_in_before(seats@, k as int, i));
                    }
                }
                if handed_in_before(seats@, k as int, i) || i == index {
                    let w = if handed_in_before(seats@, k as int, i) {
                        choose|w: int|
                            0 <= w < k && w < seats@.len() && (#[trigger] seats@[w]).seat_index
                                == i
                    } else {
                        k as int
                    };
                    assert(0 <= w < k + 1 && w < seats@.len() && seats@[w].seat_index == i);
                }
            }
        }
        k += 1;
    }
    let mut i: u8 = 0;
    while i < game.player_count
        invariant
            i <= game.player_count <= 16,
            k == seats.len(),
            forall|s: int| present@.contains(s) <==> 0 <= s < 16 && handed_in(seats@, s),
            forall|s: int|
                0 <= s < i && !game.folded_mask@.contains(s) ==> #[trigger] handed_in(seats@, s),
        decreases game.player_count - i,
    {
        if !game.folded_mask.contains(i) && !present.contains(i) {
            assert(!handed_in(seats@, i as int));
            return false;
        }
        i += 1;
    }
    true
}

/// Starts a new betting round for every seat: nothing bet in the round and
/// not yet acted.
pub fn reset_seats(seats: &mut Vec<PlayerSeat>)
    ensures
        final(seats)@ == old(seats)@.map_values(|s: PlayerSeat| s.round_reset()),
{
    let mut i: usize = 0;
    while i < seats.len()
        invariant
            i <= seats.len(),
            seats@.len() == old(seats)@.len(),
            forall|k: int| 0 <= k < i ==> seats@[k] == old(seats)@[k].round_reset(),
            forall|k: int| i <= k < seats@.len() ==> seats@[k] == old(seats)@[k],
        decreases seats.len() - i,
    {
        let mut seat = seats[i];
        seat.reset_for_new_round();
        seats.set(i, seat);
        i += 1;
    }
    assert(seats@ =~= old(seats)@.map_values(|s: PlayerSeat| s.round_reset()));
}

} // verus!
