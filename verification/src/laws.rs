use vstd::prelude::*;
use crate::apply_offset_batch;
use crate::deal_cards;
use crate::player_action;
use crate::post_blinds;
use crate::advance_stage;
use crate::state::player_seat::PlayerSeat;
use crate::state::poker_game::PokerGame;
use crate::state::poker_table::PokerTable;
use crate::state::{BetAction, Handle};
use crate::turn_order::{lemma_scan_active, seat_after};

verus! {

/// What the seats have bet in the hand, all together.
pub open spec fn total_bets(seats: Seq<PlayerSeat>) -> int
    decreases seats.len(),
{
    if seats.len() == 0 {
        0
    } else {
        total_bets(seats.drop_last()) + seats.last().total_bet
    }
}

/// What the players brought to the hand, all together: stacks and bets.
pub open spec fn total_stakes(seats: Seq<PlayerSeat>) -> int
    decreases seats.len(),
{
    if seats.len() == 0 {
        0
    } else {
        total_stakes(seats.drop_last()) + seats.last().stake()
    }
}

/// The books of a hand balance when the pot holds exactly what the seats
/// have bet.
pub open spec fn books_balance(game: PokerGame, seats: Seq<PlayerSeat>) -> bool {
    game.pot == total_bets(seats)
}

/// A hand with its seats is sound when the hand and every seat are well
/// formed, the books balance, and all that the players brought is
/// representable.
pub open spec fn sound_hand(game: PokerGame, seats: Seq<PlayerSeat>) -> bool {
    &&& game.wf()
    &&& forall|i: int| 0 <= i < seats.len() ==> (#[trigger] seats[i]).wf()
    &&& books_balance(game, seats)
    &&& total_stakes(seats) <= u64::MAX
}

/// Replacing one seat changes the total of the bets by the change of that
/// seat's bet, and the total of the stakes by the change of its stake.
pub proof fn lemma_totals_update(seats: Seq<PlayerSeat>, i: int, seat: PlayerSeat)
    requires
        0 <= i < seats.len(),
    ensures
        total_bets(seats.update(i, seat)) == total_bets(seats) - seats[i].total_bet
            + seat.total_bet,
        total_stakes(seats.update(i, seat)) == total_stakes(seats) - seats[i].stake()
            + seat.stake(),
    decreases seats.len(),
{
    let updated = seats.update(i, seat);
    if i == seats.len() - 1 {
        assert(updated.drop_last() =~= seats.drop_last());
    } else {
        assert(updated.drop_last() =~= seats.drop_last().update(i, seat));
        lemma_totals_update(seats.drop_last(), i, seat);
    }
}

/// No seat holds more than all seats hold together, and no bet is negative.
pub proof fn lemma_totals_bound(seats: Seq<PlayerSeat>, i: int)
    requires
        0 <= i < seats.len(),
    ensures
        0 <= total_bets(seats) <= total_stakes(seats),
        seats[i].stake() + total_bets(seats) - seats[i].total_bet <= total_stakes(seats),
    decreases seats.len(),
{
    lemma_totals_nonnegative(seats.drop_last());
    if i < seats.len() - 1 {
        lemma_totals_bound(seats.drop_last(), i);
    }
}

/// The bets are part of the stakes, and neither total is negative.
pub proof fn lemma_totals_nonnegative(seats: Seq<PlayerSeat>)
    ensures
        0 <= total_bets(seats) <= total_stakes(seats),
    decreases seats.len(),
{
    if seats.len() > 0 {
        lemma_totals_nonnegative(seats.drop_last());
    }
}

/// In a sound hand the pot can take any seat's whole stack, and any two
/// seats' stacks together.
pub proof fn lemma_pot_has_room(game: PokerGame, seats: Seq<PlayerSeat>, i: int, j: int)
    requires
        sound_hand(game, seats),
        0 <= i < seats.len(),
        0 <= j < seats.len(),
    ensures
        game.pot + seats[i].chips <= u64::MAX,
        i != j ==> game.pot + seats[i].chips + seats[j].chips <= u64::MAX,
{
    lemma_totals_bound(seats, i);
    if i != j {
        let emptied = PlayerSeat { chips: 0, ..seats[i] };
        let rest = seats.update(i, emptied);
        lemma_totals_update(seats, i, emptied);
        lemma_totals_bound(rest, j);
        assert(rest[j] == seats[j]);
    }
}

/// In a sound hand the pot always has room for a legal action: the limit
/// that the action handler asks for on the pot is met by every seat of the
/// hand, whatever the action.
pub proof fn law_sound_hand_has_room_for_action(
    game: PokerGame,
    seats: Seq<PlayerSeat>,
    actor: int,
    code: u8,
    raise_amount: u64,
)
    requires
        sound_hand(game, seats),
        0 <= actor < seats.len(),
        player_action::refusal(game, seats[actor], code, raise_amount) is None,
    ensures
        game.pot + player_action::chips_committed(
            game,
            seats[actor],
            BetAction::decode(code)->0,
            raise_amount,
        ) <= u64::MAX,
        game.players_acted < u8::MAX ==> player_action::within_limits(
            game,
            seats[actor],
            code,
            raise_amount,
        ),
{
    lemma_pot_has_room(game, seats, actor, actor);
}

/// In a sound hand the pot always has room for the blinds: the limit that
/// the blinds handler asks for is met by any two seats of the hand.
pub proof fn law_sound_hand_has_room_for_blinds(
    table: PokerTable,
    game: PokerGame,
    seats: Seq<PlayerSeat>,
    sb: int,
    bb: int,
)
    requires
        sound_hand(game, seats),
        0 <= sb < seats.len(),
        0 <= bb < seats.len(),
        sb != bb,
    ensures
        post_blinds::within_limits(table, game, seats[sb], seats[bb]),
{
    lemma_pot_has_room(game, seats, sb, bb);
}

/// A hand that was just started, with no seat dealt yet, has balanced
/// books: the pot is empty and nothing has been bet.
pub proof fn law_fresh_hand_balances(game: PokerGame, game_id: u64, player_count: u8)
    requires
        crate::start_game::is_fresh(game, game_id, player_count),
    ensures
        books_balance(game, Seq::<PlayerSeat>::empty()),
{
}

/// Dealing a seat keeps the books balanced: the pot does not move and the
/// new seat has bet nothing.
pub proof fn law_deal_keeps_books(
    table: PokerTable,
    game: PokerGame,
    seats: Seq<PlayerSeat>,
    seat_index: u8,
    buy_in: u64,
)
    requires
        books_balance(game, seats),
        deal_cards::refusal(table, game, seat_index, buy_in) is None,
    ensures
        books_balance(
            deal_cards::game_after(game),
            seats.push(deal_cards::seat_dealt(game, seat_index, buy_in)),
        ),
{
    let dealt = deal_cards::seat_dealt(game, seat_index, buy_in);
    assert(seats.push(dealt).drop_last() =~= seats);
}

/// Posting the blinds keeps the books balanced: what the two seats post is
/// what the pot gains.
pub proof fn law_blinds_keep_books(
    table: PokerTable,
    game: PokerGame,
    seats: Seq<PlayerSeat>,
    sb: int,
    bb: int,
)
    requires
        table.wf(),
        sound_hand(game, seats),
        0 <= sb < seats.len(),
        0 <= bb < seats.len(),
        sb != bb,
        post_blinds::refusal(game, seats[sb], seats[bb]) is None,
    ensures
        books_balance(
            post_blinds::game_after(game, table, seats[sb], seats[bb]),
            seats.update(sb, post_blinds::seat_after_blind(seats[sb], table.small_blind)).update(
                bb,
                post_blinds::seat_after_blind(seats[bb], post_blinds::big_blind_of(table)),
            ),
        ),
{
    let sb_after = post_blinds::seat_after_blind(seats[sb], table.small_blind);
    let bb_after = post_blinds::seat_after_blind(seats[bb], post_blinds::big_blind_of(table));
    let mid = seats.update(sb, sb_after);
    lemma_totals_update(seats, sb, sb_after);
    lemma_totals_update(mid, bb, bb_after);
    lemma_totals_bound(seats, sb);
    lemma_totals_bound(mid, bb);
    assert(seats[sb].wf());
    assert(seats[bb].wf());
    assert(mid[bb] == seats[bb]);
}

/// A legal action keeps the books balanced: what the acting seat commits
/// is what the pot gains, whatever the action.
pub proof fn law_action_keeps_books(
    game: PokerGame,
    seats: Seq<PlayerSeat>,
    actor: int,
    code: u8,
    raise_amount: u64,
)
    requires
        sound_hand(game, seats),
        0 <= actor < seats.len(),
        player_action::refusal(game, seats[actor], code, raise_amount) is None,
    ensures
        books_balance(
            player_action::game_after(
                game,
                seats[actor],
                BetAction::decode(code)->0,
                raise_amount,
            ),
            seats.update(
                actor,
                player_action::seat_after(
                    game,
                    seats[actor],
                    BetAction::decode(code)->0,
                    raise_amount,
                ),
            ),
        ),
{
    let action = BetAction::decode(code)->0;
    let after = player_action::seat_after(game, seats[actor], action, raise_amount);
    lemma_totals_update(seats, actor, after);
    lemma_totals_bound(seats, actor);
    assert(seats[actor].wf());
}

/// Advancing the stage keeps the books balanced: the pot does not move and
/// starting a new round changes no seat's bet for the hand.
pub proof fn law_advance_keeps_books(game: PokerGame, seats: Seq<PlayerSeat>)
    requires
        books_balance(game, seats),
        advance_stage::refusal(game, seats) is None,
    ensures
        books_balance(advance_stage::game_after(game), advance_stage::seats_after(game, seats)),
{
    lemma_reset_keeps_bets(seats);
}

/// When the stage is advanced to a new betting round, every seat still in
/// the hand starts it afresh: each seat that has not folded is among the
/// seats after the call, with nothing bet in the round and not yet acted.
pub proof fn law_advance_resets_every_remaining_seat(
    game: PokerGame,
    seats: Seq<PlayerSeat>,
    seat: int,
)
    requires
        advance_stage::refusal(game, seats) is None,
        !advance_stage::single_survivor(game),
        0 <= seat < game.player_count,
        !game.folded_mask@.contains(seat),
    ensures
        exists|k: int|
            0 <= k < seats.len() && (#[trigger] advance_stage::seats_after(
                game,
                seats,
            )[k]).seat_index == seat && advance_stage::seats_after(game, seats)[k].current_bet == 0
                && !advance_stage::seats_after(game, seats)[k].has_acted,
{
    assert(advance_stage::handed_in(seats, seat));
    let k = choose|k: int|
        0 <= k < seats.len() && k < seats.len() && (#[trigger] seats[k]).seat_index == seat;
    assert(advance_stage::seats_after(game, seats)[k] == seats[k].round_reset());
}

/// Starting a new round for every seat changes no seat's bet for the hand.
pub proof fn lemma_reset_keeps_bets(seats: Seq<PlayerSeat>)
    ensures
        total_bets(seats.map_values(|s: PlayerSeat| s.round_reset())) == total_bets(seats),
    decreases seats.len(),
{
    let reset = seats.map_values(|s: PlayerSeat| s.round_reset());
    if seats.len() > 0 {
        assert(reset.drop_last() =~= seats.drop_last().map_values(
            |s: PlayerSeat| s.round_reset(),
        ));
        lemma_reset_keeps_bets(seats.drop_last());
    }
}

/// Committing and blinding cards leave the pot alone.
pub proof fn law_dealing_protocol_keeps_pot(
    pre: PokerGame,
    post: PokerGame,
    batch_index: u8,
    fresh_offset: Handle,
    handles: [Handle; 5],
)
    requires
        crate::submit_cards::committed(pre, post, batch_index, handles)
            || apply_offset_batch::blinded_batch(pre, post, batch_index, fresh_offset, handles),
    ensures
        post.pot == pre.pot,
{
}

/// What a second call for a blinding batch leaves behind: the hand as it
/// was where the call is refused, the hand with the batch blinded again
/// where it is accepted.
pub open spec fn blinded_again(
    mid: PokerGame,
    post: PokerGame,
    batch_index: u8,
    fresh_offset: Handle,
    blinded: [Handle; 5],
) -> bool {
    if apply_offset_batch::refusal(mid, batch_index) is Some {
        post == mid
    } else {
        apply_offset_batch::blinded_batch(mid, post, batch_index, fresh_offset, blinded)
    }
}

/// Blinding a batch twice is the same as blinding it once: whatever handles
/// the second call is given, whether it is accepted or refused, it leaves
/// the card pool and the record of blinded slots exactly as the first call
/// left them, and the stored offset, the progress marker and all the rest
/// of the hand too.
pub proof fn law_blinding_is_idempotent(
    pre: PokerGame,
    mid: PokerGame,
    post: PokerGame,
    batch_index: u8,
    first_offset: Handle,
    first_blinded: [Handle; 5],
    second_offset: Handle,
    second_blinded: [Handle; 5],
)
    requires
        pre.wf(),
        apply_offset_batch::refusal(pre, batch_index) is None,
        apply_offset_batch::blinded_batch(pre, mid, batch_index, first_offset, first_blinded),
        blinded_again(mid, post, batch_index, second_offset, second_blinded),
    ensures
        post.card_pool == mid.card_pool,
        post.cards_offset_mask == mid.cards_offset_mask,
        post == mid,
{
    if apply_offset_batch::refusal(mid, batch_index) is None {
        assert(post.cards_offset_mask@ =~= mid.cards_offset_mask@);
        post.cards_offset_mask.lemma_same_members(mid.cards_offset_mask);
        assert(post.card_pool@ =~= mid.card_pool@);
        assert(post.card_pool =~= mid.card_pool);
    }
}

/// A retried batch never sets the blinding back: whichever batch is blinded
/// again, the progress marker is where it was or further, so the batch that
/// was due next is still accepted.
pub proof fn law_blinding_never_moves_back(
    pre: PokerGame,
    post: PokerGame,
    batch_index: u8,
    fresh_offset: Handle,
    blinded: [Handle; 5],
    next_batch: u8,
)
    requires
        pre.wf(),
        apply_offset_batch::refusal(pre, batch_index) is None,
        apply_offset_batch::blinded_batch(pre, post, batch_index, fresh_offset, blinded),
    ensures
        post.offset_batch >= pre.offset_batch,
        post.offset_batch > batch_index,
        apply_offset_batch::refusal(pre, next_batch) is None && !post.offset_applied
            ==> apply_offset_batch::refusal(post, next_batch) is None,
{
}

/// A slot that is blinded stays blinded with the same card: a later batch,
/// whichever it is, never touches a slot whose mark is set.
pub proof fn law_blinded_slot_is_final(
    pre: PokerGame,
    post: PokerGame,
    batch_index: u8,
    fresh_offset: Handle,
    blinded: [Handle; 5],
    slot: int,
)
    requires
        apply_offset_batch::blinded_batch(pre, post, batch_index, fresh_offset, blinded),
        0 <= slot < 15,
        pre.cards_offset_mask@.contains(slot),
    ensures
        post.card_pool[slot] == pre.card_pool[slot],
        post.cards_offset_mask@.contains(slot),
{
    assert(post.card_pool@[slot] == pre.card_pool@[slot]);
}

/// Whether `next` is where the action belongs when the search starts at
/// `start`: a seat of the hand; where some seat can act, the nearest such
/// seat going round from `start`, so that it can act and no seat passed
/// over on the way can; and `start` itself where no seat can act.
pub open spec fn is_nearest_active(game: PokerGame, start: int, next: int) -> bool {
    let count = game.player_count as int;
    &&& 0 <= next < count
    &&& !(game.acting_seats() =~= Set::<int>::empty()) ==> game.seat_can_act(next) && exists|
        steps: int,
    |
        0 <= steps < count && next == #[trigger] seat_after(start, steps, count) && forall|j: int|
            0 <= j < steps ==> !game.seat_can_act(#[trigger] seat_after(start, j, count))
    &&& game.acting_seats() =~= Set::<int>::empty() ==> next == start
}

/// The search for the seat to act finds the nearest seat that can act.
pub proof fn lemma_action_goes_to_nearest(game: PokerGame, start: int)
    requires
        0 < game.player_count,
        0 <= start < game.player_count,
    ensures
        is_nearest_active(game, start, game.action_from(start)),
{
    let count = game.player_count as int;
    crate::turn_order::lemma_first_active(game.folded_mask, game.all_in_mask, count, start);
    lemma_scan_active(game.folded_mask, game.all_in_mask, count, start, 0);
}

/// After a legal action the turn is on a seat of the hand. Where some seat
/// can still act, the turn is on the nearest such seat to the left of the
/// one that acted, wrapping round the table: it can act, and no seat passed
/// over on the way can.
pub proof fn law_turn_goes_to_next_active(game: PokerGame)
    requires
        game.wf(),
    ensures
        is_nearest_active(
            game,
            game.seat_left_of(game.action_on as int),
            player_action::turn_passed(game).action_on as int,
        ),
{
    lemma_action_goes_to_nearest(game, game.seat_left_of(game.action_on as int));
}

/// After the blinds the turn is on the nearest seat to the left of the big
/// blind that can act; both posters have yet to act, no action is counted,
/// and exactly the two posters are recorded as having posted.
pub proof fn law_blinds_start_the_round(
    table: PokerTable,
    game: PokerGame,
    sb_seat: PlayerSeat,
    bb_seat: PlayerSeat,
)
    requires
        game.wf(),
        post_blinds::refusal(game, sb_seat, bb_seat) is None,
    ensures
        ({
            let after = post_blinds::game_after(game, table, sb_seat, bb_seat);
            &&& is_nearest_active(
                game,
                game.seat_left_of(bb_seat.seat_index as int),
                after.action_on as int,
            )
            &&& after.players_acted == 0
            &&& !post_blinds::seat_after_blind(sb_seat, table.small_blind).has_acted
            &&& !post_blinds::seat_after_blind(bb_seat, post_blinds::big_blind_of(table)).has_acted
            &&& after.blinds_posted@ =~= set![sb_seat.seat_index as int, bb_seat.seat_index as int]
        }),
{
    lemma_action_goes_to_nearest(game, game.seat_left_of(bb_seat.seat_index as int));
    game.blinds_posted.lemma_with(sb_seat.seat_index as int);
    game.blinds_posted.with(sb_seat.seat_index as int).lemma_with(bb_seat.seat_index as int);
}

/// After the stage has moved to a new betting round the turn is on the
/// nearest seat to the left of the dealer that can act.
pub proof fn law_new_round_starts_left_of_dealer(game: PokerGame)
    requires
        game.wf(),
        advance_stage::can_advance(game),
        !advance_stage::single_survivor(game),
    ensures
        is_nearest_active(
            game,
            game.seat_left_of(game.dealer_position as int),
            advance_stage::game_after(game).action_on as int,
        ),
{
    lemma_action_goes_to_nearest(game, game.seat_left_of(game.dealer_position as int));
}

/// A fold that leaves a single player ends the betting: the hand is at the
/// showdown whatever stage it was in and whoever has yet to act.
pub proof fn law_last_fold_forces_showdown(game: PokerGame, seat: PlayerSeat, raise_amount: u64)
    requires
        game.wf(),
        player_action::refusal(game, seat, 0, raise_amount) is None,
        game.players_remaining == 2,
    ensures
        player_action::game_after(game, seat, BetAction::Fold, raise_amount).stage is Showdown,
        player_action::game_after(game, seat, BetAction::Fold, raise_amount).players_remaining
            == 1,
{
}

/// The rotation deals every hole-card slot to one seat only: two hole cards
/// share a pool slot only where they are the same card of the same seat.
pub proof fn law_rotation_is_one_to_one(
    seat_a: int,
    card_a: int,
    seat_b: int,
    card_b: int,
    position_offset: int,
)
    requires
        0 <= seat_a < 5,
        0 <= seat_b < 5,
        0 <= card_a < 2,
        0 <= card_b < 2,
        0 <= position_offset,
        deal_cards::hole_slot(seat_a, card_a, position_offset) == deal_cards::hole_slot(
            seat_b,
            card_b,
            position_offset,
        ),
    ensures
        seat_a == seat_b,
        card_a == card_b,
{
    let a = 2 * seat_a + card_a;
    let b = 2 * seat_b + card_b;
    assert(0 <= a < 10 && 0 <= b < 10);
    if a != b {
        if a < b {
            lemma_rotation_separates(a, b, position_offset);
        } else {
            lemma_rotation_separates(b, a, position_offset);
        }
    }
}

/// Two different slots stay different when both are rotated by the same
/// offset round the ten hole-card slots.
pub proof fn lemma_rotation_separates(a: int, b: int, offset: int)
    requires
        0 <= a < b < 10,
        0 <= offset,
    ensures
        (a + offset) % 10 != (b + offset) % 10,
{
    let x = a + offset;
    let y = b + offset;
    vstd::arithmetic::div_mod::lemma_fundamental_div_mod(x, 10);
    vstd::arithmetic::div_mod::lemma_fundamental_div_mod(y, 10);
    if x % 10 == y % 10 {
        assert(y - x == 10 * (y / 10) - 10 * (x / 10));
        assert(0 < y - x < 10);
        assert(10 * (y / 10 - x / 10) == y - x);
        if y / 10 - x / 10 >= 1 {
            assert(10 * (y / 10 - x / 10) >= 10);
        } else {
            assert(10 * (y / 10 - x / 10) <= 0);
        }
    }
}

} // verus!
